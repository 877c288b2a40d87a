use vstd::prelude::*;
use vstd::std_specs::convert::FromSpec;

verus! {

/// A value held in the host's event-scoped store. The container records the
/// type it was made from: a 32-bit float travels as its IEEE-754 bit pattern,
/// and a value of a type the host does not know travels as the bytes that
/// the type's own codec writes, under the type's tag.
#[derive(Clone, Debug, PartialEq, Eq)]
pub enum BoxedDataObject {
    Int32(i32),
    Float32Bits(u32),
    Opaque { type_tag: String, bytes: Vec<u8> },
}

/// A borrow of a stored container, valid while the store holds it.
#[derive(Clone, Copy)]
pub struct DataObjectRef<'a>(pub &'a BoxedDataObject);

/// What unwrapping a container as `i32` gives.
pub open spec fn unwrap_i32(b: BoxedDataObject) -> i32
    recommends
        b is Int32,
{
    match b {
        BoxedDataObject::Int32(v) => v,
        _ => 0,
    }
}

/// What unwrapping a container as float bits gives.
pub open spec fn unwrap_f32_bits(b: BoxedDataObject) -> u32
    recommends
        b is Float32Bits,
{
    match b {
        BoxedDataObject::Float32Bits(v) => v,
        _ => 0,
    }
}

/// What unwrapping an opaque container gives: its bytes.
pub open spec fn unwrap_opaque(b: BoxedDataObject) -> Seq<u8>
    recommends
        b is Opaque,
{
    match b {
        BoxedDataObject::Opaque { bytes, .. } => bytes@,
        _ => Seq::empty(),
    }
}

/// The type tag under which a container was made.
pub open spec fn tag_of(b: BoxedDataObject) -> Seq<char> {
    match b {
        BoxedDataObject::Int32(_) => "int"@,
        BoxedDataObject::Float32Bits(_) => "float"@,
        BoxedDataObject::Opaque { type_tag, .. } => type_tag@,
    }
}

impl BoxedDataObject {
    /// Wraps an `i32`; ownership of the container passes to whoever stores it.
    pub fn from_i32(value: i32) -> (r: BoxedDataObject)
        ensures
            r == BoxedDataObject::Int32(value),
    {
        BoxedDataObject::Int32(value)
    }

    /// Wraps the bit pattern of an `f32`.
    pub fn from_f32_bits(bits: u32) -> (r: BoxedDataObject)
        ensures
            r == BoxedDataObject::Float32Bits(bits),
    {
        BoxedDataObject::Float32Bits(bits)
    }

    /// Wraps the bytes of a value of the type tagged `type_tag`.
    pub fn from_opaque(type_tag: &str, bytes: Vec<u8>) -> (r: BoxedDataObject)
        ensures
            r is Opaque,
            tag_of(r) == type_tag@,
            unwrap_opaque(r) == bytes@,
    {
        BoxedDataObject::Opaque { type_tag: type_tag.to_owned(), bytes }
    }

    /// The type tag under which the value was wrapped.
    pub fn type_tag(&self) -> (r: &str)
        ensures
            r@ == tag_of(*self),
    {
        proof {
            reveal_strlit("int");
            reveal_strlit("float");
        }
        match self {
            BoxedDataObject::Int32(_) => "int",
            BoxedDataObject::Float32Bits(_) => "float",
            BoxedDataObject::Opaque { type_tag, .. } => type_tag.as_str(),
        }
    }
}

impl From<i32> for BoxedDataObject {
    fn from(value: i32) -> (r: BoxedDataObject) {
        BoxedDataObject::Int32(value)
    }
}

impl vstd::std_specs::convert::FromSpecImpl<i32> for BoxedDataObject {
    open spec fn obeys_from_spec() -> bool {
        true
    }

    open spec fn from_spec(v: i32) -> BoxedDataObject {
        BoxedDataObject::Int32(v)
    }
}

impl<'a> DataObjectRef<'a> {
    /// Borrows the stored `i32`. The caller names the type: asking a container
    /// for a type other than the one it was wrapped from is a caller error.
    pub fn as_i32(&self) -> (r: &'a i32)
        requires
            *self.0 is Int32,
        ensures
            *r == unwrap_i32(*self.0),
    {
        match self.0 {
            BoxedDataObject::Int32(v) => v,
            _ => {
                proof {
                    assert(false);
                }
                &0
            },
        }
    }

    /// Borrows the stored float bit pattern.
    pub fn as_f32_bits(&self) -> (r: &'a u32)
        requires
            *self.0 is Float32Bits,
        ensures
            *r == unwrap_f32_bits(*self.0),
    {
        match self.0 {
            BoxedDataObject::Float32Bits(v) => v,
            _ => {
                proof {
                    assert(false);
                }
                &0
            },
        }
    }

    /// Borrows the bytes of an opaque container, for the type's own codec.
    pub fn as_opaque(&self) -> (r: &'a [u8])
        requires
            *self.0 is Opaque,
        ensures
            r@ == unwrap_opaque(*self.0),
    {
        match self.0 {
            BoxedDataObject::Opaque { bytes, .. } => bytes.as_slice(),
            _ => {
                proof {
                    assert(false);
                }
                &[]
            },
        }
    }
}

/// Wrapping a value and unwrapping the container under the same type gives
/// the value back, for each type that the codec carries.
pub proof fn law_round_trip(v: i32, bits: u32, tag: String, bytes: Vec<u8>)
    ensures
        unwrap_i32(BoxedDataObject::Int32(v)) == v,
        unwrap_f32_bits(BoxedDataObject::Float32Bits(bits)) == bits,
        unwrap_opaque(BoxedDataObject::Opaque { type_tag: tag, bytes }) == bytes@,
        tag_of(BoxedDataObject::Opaque { type_tag: tag, bytes }) == tag@,
        BoxedDataObject::Int32(v) == BoxedDataObject::from_spec(v),
{
}

} // verus!

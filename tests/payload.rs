use gaudi_rust_bindings::event::EventContext;
use gaudi_rust_bindings::payload::{BoxedDataObject, DataObjectRef};

#[test]
fn int_round_trips_through_container() {
    for v in [0, 42, -1, i32::MIN, i32::MAX] {
        let boxed = BoxedDataObject::from(v);
        assert_eq!(boxed, BoxedDataObject::from_i32(v));
        assert_eq!(*DataObjectRef(&boxed).as_i32(), v);
        assert_eq!(boxed.type_tag(), "int");
    }
}

#[test]
fn float_round_trips_through_container() {
    for v in [0.0f32, 1.5, -2.25, f32::MAX] {
        let boxed = BoxedDataObject::from_f32_bits(v.to_bits());
        assert_eq!(f32::from_bits(*DataObjectRef(&boxed).as_f32_bits()), v);
        assert_eq!(boxed.type_tag(), "float");
    }
}

#[test]
fn event_context_fields() {
    let plain = EventContext::new(12, 3, None, true);
    assert_eq!(plain.evt(), 12);
    assert_eq!(plain.slot(), 3);
    assert_eq!(plain.sub_slot(), None);
    assert!(plain.is_valid());
    let split = EventContext::new(5, 1, Some(7), false);
    assert_eq!(split.sub_slot(), Some(7));
    assert!(!split.is_valid());
}

#[test]
fn opaque_bytes_round_trip_with_their_tag() {
    let bytes: Vec<u8> = [1.0f32, 2.0, 3.0].iter().flat_map(|c| c.to_le_bytes()).collect();
    let boxed = BoxedDataObject::from_opaque("rust::Box<Gaudi::Examples::Rust::Point>", bytes.clone());
    assert_eq!(boxed.type_tag(), "rust::Box<Gaudi::Examples::Rust::Point>");
    assert_eq!(DataObjectRef(&boxed).as_opaque(), &bytes[..]);
    let empty = BoxedDataObject::from_opaque("Empty", Vec::new());
    assert!(DataObjectRef(&empty).as_opaque().is_empty());
    assert_ne!(boxed, empty);
}

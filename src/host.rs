use vstd::prelude::*;

use crate::event::EventContext;
use crate::payload::{BoxedDataObject, DataObjectRef};

verus! {

/// The six severities of the host's message sink.
#[derive(Clone, Copy, Debug, PartialEq, Eq, Structural)]
pub enum Severity {
    Verbose,
    Debug,
    Info,
    Warning,
    Error,
    Fatal,
}

/// A configuration value declared with the host: a semantics tag (the type
/// label), a name, its current text (the default until overridden) and a
/// documentation string.
pub struct Property {
    pub semantics: String,
    pub name: String,
    pub value: String,
    pub doc: String,
}

/// A typed data-flow handle: a type tag, a name, the default storage location
/// and a documentation string.
pub struct DataHandle {
    pub type_tag: String,
    pub name: String,
    pub location: String,
    pub doc: String,
}

/// One message handed to the host's sink.
pub struct Message {
    pub level: Severity,
    pub text: String,
}

/// One object in the event-scoped store: the event it belongs to, its
/// location, the output handle it was put through (empty for an object that
/// the host placed itself) and the value.
pub struct StoreEntry {
    pub evt: usize,
    pub location: String,
    pub handle: String,
    pub value: BoxedDataObject,
}

pub ghost struct PropertyView {
    pub semantics: Seq<char>,
    pub name: Seq<char>,
    pub value: Seq<char>,
    pub doc: Seq<char>,
}

pub ghost struct HandleView {
    pub type_tag: Seq<char>,
    pub name: Seq<char>,
    pub location: Seq<char>,
    pub doc: Seq<char>,
}

pub ghost struct MessageView {
    pub level: Severity,
    pub text: Seq<char>,
}

pub ghost struct EntryView {
    pub evt: usize,
    pub location: Seq<char>,
    pub handle: Seq<char>,
    pub value: BoxedDataObject,
}

/// What the host facade holds for one component instance.
pub ghost struct HostView {
    pub name: Seq<char>,
    pub properties: Seq<PropertyView>,
    pub inputs: Seq<HandleView>,
    pub outputs: Seq<HandleView>,
    pub messages: Seq<MessageView>,
    pub store: Seq<EntryView>,
}

impl View for Property {
    type V = PropertyView;

    open spec fn view(&self) -> PropertyView {
        PropertyView {
            semantics: self.semantics@,
            name: self.name@,
            value: self.value@,
            doc: self.doc@,
        }
    }
}

impl View for DataHandle {
    type V = HandleView;

    open spec fn view(&self) -> HandleView {
        HandleView {
            type_tag: self.type_tag@,
            name: self.name@,
            location: self.location@,
            doc: self.doc@,
        }
    }
}

impl View for Message {
    type V = MessageView;

    open spec fn view(&self) -> MessageView {
        MessageView { level: self.level, text: self.text@ }
    }
}

impl View for StoreEntry {
    type V = EntryView;

    open spec fn view(&self) -> EntryView {
        EntryView {
            evt: self.evt,
            location: self.location@,
            handle: self.handle@,
            value: self.value,
        }
    }
}

/// The index of the first element of `s` that satisfies `p`.
pub open spec fn first_match<T>(s: Seq<T>, p: spec_fn(T) -> bool) -> Option<int>
    decreases s.len(),
{
    if s.len() == 0 {
        None
    } else {
        match first_match(s.drop_last(), p) {
            Some(i) => Some(i),
            None => if p(s.last()) {
                Some(s.len() - 1)
            } else {
                None
            },
        }
    }
}

pub proof fn lemma_first_match<T>(s: Seq<T>, p: spec_fn(T) -> bool)
    ensures
        match first_match(s, p) {
            Some(i) => 0 <= i < s.len() && p(s[i]) && forall|j: int| 0 <= j < i ==> !p(#[trigger] s[j]),
            None => forall|j: int| 0 <= j < s.len() ==> !p(#[trigger] s[j]),
        },
    decreases s.len(),
{
    if s.len() > 0 {
        lemma_first_match(s.drop_last(), p);
        assert(forall|j: int| 0 <= j < s.len() - 1 ==> s.drop_last()[j] == s[j]);
    }
}

/// `first_match` is the one index where `p` holds and holds nowhere before.
pub proof fn lemma_first_match_at<T>(s: Seq<T>, p: spec_fn(T) -> bool, i: int)
    requires
        0 <= i < s.len(),
        p(s[i]),
        forall|j: int| 0 <= j < i ==> !p(#[trigger] s[j]),
    ensures
        first_match(s, p) == Some(i),
{
    lemma_first_match(s, p);
    match first_match(s, p) {
        Some(k) => {
            if k < i {
                assert(!p(s[k]));
            } else if k > i {
                assert(!p(s[i]));
            }
        },
        None => {
            assert(!p(s[i]));
        },
    }
}

pub open spec fn named_property(name: Seq<char>) -> spec_fn(PropertyView) -> bool {
    |p: PropertyView| p.name == name
}

pub open spec fn named_handle(name: Seq<char>) -> spec_fn(HandleView) -> bool {
    |h: HandleView| h.name == name
}

pub open spec fn entry_at(evt: usize, location: Seq<char>) -> spec_fn(EntryView) -> bool {
    |e: EntryView| e.evt == evt && e.location == location
}

/// The current text of the first property declared under `name`.
pub open spec fn property_value(props: Seq<PropertyView>, name: Seq<char>) -> Option<Seq<char>> {
    match first_match(props, named_property(name)) {
        Some(i) => Some(props[i].value),
        None => None,
    }
}

pub open spec fn doc_text(doc: Option<&str>) -> Seq<char> {
    match doc {
        Some(d) => d@,
        None => Seq::empty(),
    }
}

pub open spec fn error_text(r: Result<(), String>) -> Option<Seq<char>> {
    match r {
        Ok(_) => None,
        Err(e) => Some(e@),
    }
}

pub open spec fn unknown_handle_error() -> Seq<char> {
    "unknown output handle"@
}

pub open spec fn occupied_error() -> Seq<char> {
    "location already holds an object for this event"@
}

/// A first match in `s` stays the first match whatever follows `s`.
pub proof fn lemma_first_match_prefix<T>(s: Seq<T>, t: Seq<T>, p: spec_fn(T) -> bool)
    requires
        first_match(s, p) is Some,
    ensures
        first_match(s + t, p) == first_match(s, p),
{
    lemma_first_match(s, p);
    let i = first_match(s, p)->0;
    assert((s + t)[i] == s[i]);
    assert forall|j: int| 0 <= j < i implies !p(#[trigger] (s + t)[j]) by {
        assert((s + t)[j] == s[j]);
    }
    lemma_first_match_at(s + t, p, i);
}

/// A name that was never declared has no property; a declared name gives
/// its default, whatever is declared after it, until it is overridden.
pub proof fn law_property_lookup(
    h: HostView,
    semantics: Seq<char>,
    name: Seq<char>,
    default: Seq<char>,
    doc: Seq<char>,
    later: Seq<PropertyView>,
)
    ensures
        (forall|i: int| 0 <= i < h.properties.len() ==> (#[trigger] h.properties[i]).name != name)
            ==> h.get_property(name) is None,
        h.get_property(name) is None ==> property_value(
            h.with_property(semantics, name, default, doc).properties + later,
            name,
        ) == Some(default),
{
    lemma_first_match(h.properties, named_property(name));
    if first_match(h.properties, named_property(name)) is Some {
        let k = first_match(h.properties, named_property(name))->0;
        assert(named_property(name)(h.properties[k]));
    }
    if h.get_property(name) is None {
        let props = h.with_property(semantics, name, default, doc).properties;
        assert(props.drop_last() =~= h.properties);
        assert(first_match(props, named_property(name)) == Some(h.properties.len() as int));
        lemma_first_match_prefix(props, later, named_property(name));
        assert((props + later)[h.properties.len() as int] == props[h.properties.len() as int]);
    }
}

/// What a component puts under an output handle, a later `get` under the
/// same handle gives back for the same event.
pub proof fn law_put_then_get(h: HostView, evt: usize, key: Seq<char>, value: BoxedDataObject)
    requires
        h.accepts_put(evt, key),
    ensures
        h.put(evt, key, value).1 is None,
        h.put(evt, key, value).0.get(evt, key) == Some(value),
{
    let h2 = h.put(evt, key, value).0;
    let loc = property_value(h.properties, key)->0;
    assert(h2.properties == h.properties);
    assert(h2.store.drop_last() =~= h.store);
    assert(first_match(h2.store, entry_at(evt, loc)) == Some(h.store.len() as int));
}

impl HostView {
    pub open spec fn with_message(self, level: Severity, text: Seq<char>) -> HostView {
        HostView { messages: self.messages.push(MessageView { level, text }), ..self }
    }

    pub open spec fn with_property(
        self,
        semantics: Seq<char>,
        name: Seq<char>,
        default: Seq<char>,
        doc: Seq<char>,
    ) -> HostView {
        HostView {
            properties: self.properties.push(
                PropertyView { semantics, name, value: default, doc },
            ),
            ..self
        }
    }

    /// Declaring a handle declares the property of the same name that holds
    /// its location.
    pub open spec fn with_input(
        self,
        type_tag: Seq<char>,
        name: Seq<char>,
        location: Seq<char>,
        doc: Seq<char>,
    ) -> HostView {
        HostView {
            inputs: self.inputs.push(HandleView { type_tag, name, location, doc }),
            ..self.with_property(type_tag, name, location, doc)
        }
    }

    pub open spec fn with_output(
        self,
        type_tag: Seq<char>,
        name: Seq<char>,
        location: Seq<char>,
        doc: Seq<char>,
    ) -> HostView {
        HostView {
            outputs: self.outputs.push(HandleView { type_tag, name, location, doc }),
            ..self.with_property(type_tag, name, location, doc)
        }
    }

    /// The host view after the property declared under `name` takes the text
    /// `value` from outside, as a job configuration would set it.
    pub open spec fn with_override(self, name: Seq<char>, value: Seq<char>) -> HostView {
        match first_match(self.properties, named_property(name)) {
            Some(i) => HostView {
                properties: self.properties.update(i, PropertyView { value, ..self.properties[i] }),
                ..self
            },
            None => self,
        }
    }

    pub open spec fn get_property(self, name: Seq<char>) -> Option<Seq<char>> {
        property_value(self.properties, name)
    }

    /// The host accepts a `put` under `key` when `key` names an output handle
    /// and its location holds nothing yet for the event.
    pub open spec fn accepts_put(self, evt: usize, key: Seq<char>) -> bool {
        &&& first_match(self.outputs, named_handle(key)) is Some
        &&& property_value(self.properties, key) is Some
        &&& first_match(self.store, entry_at(evt, property_value(self.properties, key)->0)) is None
    }

    pub open spec fn put(self, evt: usize, key: Seq<char>, value: BoxedDataObject) -> (HostView, Option<Seq<char>>) {
        if first_match(self.outputs, named_handle(key)) is None || property_value(self.properties, key) is None {
            (self, Some(unknown_handle_error()))
        } else if !self.accepts_put(evt, key) {
            (self, Some(occupied_error()))
        } else {
            (
                HostView {
                    store: self.store.push(
                        EntryView {
                            evt,
                            location: property_value(self.properties, key)->0,
                            handle: key,
                            value,
                        },
                    ),
                    ..self
                },
                None,
            )
        }
    }

    /// The host places an object made elsewhere at `location` for the event,
    /// unless that location already holds one.
    pub open spec fn insert(self, evt: usize, location: Seq<char>, value: BoxedDataObject) -> (HostView, bool) {
        if first_match(self.store, entry_at(evt, location)) is Some {
            (self, false)
        } else {
            (
                HostView {
                    store: self.store.push(
                        EntryView { evt, location, handle: Seq::empty(), value },
                    ),
                    ..self
                },
                true,
            )
        }
    }

    /// `key` names a declared input or output handle.
    pub open spec fn is_handle(self, key: Seq<char>) -> bool {
        first_match(self.inputs, named_handle(key)) is Some
            || first_match(self.outputs, named_handle(key)) is Some
    }

    /// The object stored for the event at the location of the data handle
    /// `key`; nothing where `key` names no declared handle.
    pub open spec fn get(self, evt: usize, key: Seq<char>) -> Option<BoxedDataObject> {
        if !self.is_handle(key) {
            None
        } else {
            match property_value(self.properties, key) {
                Some(loc) => match first_match(self.store, entry_at(evt, loc)) {
                    Some(i) => Some(self.store[i].value),
                    None => None,
                },
                None => None,
            }
        }
    }
}

fn doc_string(doc: Option<&str>) -> (r: String)
    ensures
        r@ == doc_text(doc),
{
    match doc {
        Some(d) => d.to_owned(),
        None => String::new(),
    }
}

fn declares_handle(handles: &Vec<DataHandle>, name: &String) -> (r: bool)
    ensures
        r == first_match(handles@.map_values(|h: DataHandle| h@), named_handle(name@)) is Some,
{
    let ghost hs = handles@.map_values(|h: DataHandle| h@);
    let mut i: usize = 0;
    while i < handles.len()
        invariant
            hs == handles@.map_values(|h: DataHandle| h@),
            i <= hs.len(),
            forall|j: int| 0 <= j < i ==> !named_handle(name@)(#[trigger] hs[j]),
        decreases handles.len() - i,
    {
        if handles[i].name == *name {
            proof {
                lemma_first_match_at(hs, named_handle(name@), i as int);
            }
            return true;
        }
        i = i + 1;
    }
    proof {
        lemma_first_match(hs, named_handle(name@));
        if first_match(hs, named_handle(name@)) is Some {
            let k = first_match(hs, named_handle(name@))->0;
            assert(!named_handle(name@)(hs[k]));
        }
    }
    false
}

/// The facade through which a component reaches its host: identity, the
/// message sink, properties, data handles and the event-scoped store.
pub struct Host {
    name: String,
    properties: Vec<Property>,
    inputs: Vec<DataHandle>,
    outputs: Vec<DataHandle>,
    messages: Vec<Message>,
    store: Vec<StoreEntry>,
}

impl View for Host {
    type V = HostView;

    closed spec fn view(&self) -> HostView {
        HostView {
            name: self.name@,
            properties: self.properties@.map_values(|p: Property| p@),
            inputs: self.inputs@.map_values(|h: DataHandle| h@),
            outputs: self.outputs@.map_values(|h: DataHandle| h@),
            messages: self.messages@.map_values(|m: Message| m@),
            store: self.store@.map_values(|e: StoreEntry| e@),
        }
    }
}

impl Host {
    /// A facade for the instance called `name`, with nothing declared yet.
    pub fn new(name: &str) -> (r: Host)
        ensures
            r@.name == name@,
            r@.properties.len() == 0,
            r@.inputs.len() == 0,
            r@.outputs.len() == 0,
            r@.messages.len() == 0,
            r@.store.len() == 0,
    {
        let r = Host {
            name: name.to_owned(),
            properties: Vec::new(),
            inputs: Vec::new(),
            outputs: Vec::new(),
            messages: Vec::new(),
            store: Vec::new(),
        };
        assert(r@.properties =~= Seq::empty());
        assert(r@.inputs =~= Seq::empty());
        assert(r@.outputs =~= Seq::empty());
        assert(r@.messages =~= Seq::empty());
        assert(r@.store =~= Seq::empty());
        r
    }

    /// The name that the host gave this instance.
    pub fn instance_name(&self) -> (r: &str)
        ensures
            r@ == self@.name,
    {
        self.name.as_str()
    }

    /// Hands a message to the host's sink.
    pub fn log(&mut self, level: Severity, msg: &str)
        ensures
            final(self)@ == old(self)@.with_message(level, msg@),
    {
        let m = Message { level, text: msg.to_owned() };
        self.messages.push(m);
        assert(self@.messages =~= old(self)@.messages.push(MessageView { level, text: msg@ }));
    }

    pub fn verbose(&mut self, msg: &str)
        ensures
            final(self)@ == old(self)@.with_message(Severity::Verbose, msg@),
    {
        self.log(Severity::Verbose, msg)
    }

    pub fn debug(&mut self, msg: &str)
        ensures
            final(self)@ == old(self)@.with_message(Severity::Debug, msg@),
    {
        self.log(Severity::Debug, msg)
    }

    pub fn info(&mut self, msg: &str)
        ensures
            final(self)@ == old(self)@.with_message(Severity::Info, msg@),
    {
        self.log(Severity::Info, msg)
    }

    pub fn warning(&mut self, msg: &str)
        ensures
            final(self)@ == old(self)@.with_message(Severity::Warning, msg@),
    {
        self.log(Severity::Warning, msg)
    }

    pub fn error(&mut self, msg: &str)
        ensures
            final(self)@ == old(self)@.with_message(Severity::Error, msg@),
    {
        self.log(Severity::Error, msg)
    }

    pub fn fatal(&mut self, msg: &str)
        ensures
            final(self)@ == old(self)@.with_message(Severity::Fatal, msg@),
    {
        self.log(Severity::Fatal, msg)
    }

    /// The lowest severity; the sink has no level below verbose.
    pub fn trace(&mut self, msg: &str)
        ensures
            final(self)@ == old(self)@.with_message(Severity::Verbose, msg@),
    {
        self.verbose(msg)
    }

    fn find_property_index(&self, name: &String) -> (r: Option<usize>)
        ensures
            r matches Some(i) ==> i < self.properties.len() && first_match(
                self@.properties,
                named_property(name@),
            ) == Some(i as int),
            r is None ==> first_match(self@.properties, named_property(name@)) is None,
    {
        let ghost props = self@.properties;
        let mut i: usize = 0;
        while i < self.properties.len()
            invariant
                props == self@.properties,
                i <= props.len(),
                forall|j: int| 0 <= j < i ==> !named_property(name@)(#[trigger] props[j]),
            decreases self.properties.len() - i,
        {
            if self.properties[i].name == *name {
                proof {
                    lemma_first_match_at(props, named_property(name@), i as int);
                }
                return Some(i);
            }
            i = i + 1;
        }
        proof {
            lemma_first_match(props, named_property(name@));
            if first_match(props, named_property(name@)) is Some {
                let k = first_match(props, named_property(name@))->0;
                assert(!named_property(name@)(props[k]));
            }
        }
        None
    }

    fn find_output(&self, name: &String) -> (r: bool)
        ensures
            r == first_match(self@.outputs, named_handle(name@)) is Some,
    {
        declares_handle(&self.outputs, name)
    }

    fn find_input(&self, name: &String) -> (r: bool)
        ensures
            r == first_match(self@.inputs, named_handle(name@)) is Some,
    {
        declares_handle(&self.inputs, name)
    }

    fn find_entry(&self, evt: usize, location: &String) -> (r: Option<usize>)
        ensures
            r matches Some(i) ==> i < self.store.len() && first_match(
                self@.store,
                entry_at(evt, location@),
            ) == Some(i as int),
            r is None ==> first_match(self@.store, entry_at(evt, location@)) is None,
    {
        let ghost st = self@.store;
        let mut i: usize = 0;
        while i < self.store.len()
            invariant
                st == self@.store,
                i <= st.len(),
                forall|j: int| 0 <= j < i ==> !entry_at(evt, location@)(#[trigger] st[j]),
            decreases self.store.len() - i,
        {
            if self.store[i].evt == evt && self.store[i].location == *location {
                proof {
                    lemma_first_match_at(st, entry_at(evt, location@), i as int);
                }
                return Some(i);
            }
            i = i + 1;
        }
        proof {
            lemma_first_match(st, entry_at(evt, location@));
            if first_match(st, entry_at(evt, location@)) is Some {
                let k = first_match(st, entry_at(evt, location@))->0;
                assert(!entry_at(evt, location@)(st[k]));
            }
        }
        None
    }

    /// Declares a configuration value; until it is overridden its text is
    /// `default`.
    pub fn add_property(&mut self, semantics: &str, name: &str, default: &str, doc: Option<&str>)
        ensures
            final(self)@ == old(self)@.with_property(semantics@, name@, default@, doc_text(doc)),
    {
        let p = Property {
            semantics: semantics.to_owned(),
            name: name.to_owned(),
            value: default.to_owned(),
            doc: doc_string(doc),
        };
        self.properties.push(p);
        assert(self@.properties =~= old(self)@.with_property(
            semantics@, name@, default@, doc_text(doc),
        ).properties);
    }

    /// The current text of the property declared under `name`, or nothing
    /// where no property of that name was declared.
    pub fn get_property(&self, name: &str) -> (r: Option<String>)
        ensures
            r is None <==> self@.get_property(name@) is None,
            r matches Some(v) ==> self@.get_property(name@) == Some(v@),
    {
        let key = name.to_owned();
        match self.find_property_index(&key) {
            Some(i) => Some(self.properties[i].value.clone()),
            None => None,
        }
    }
    /// Overrides the text of the property declared under `name`; tells whether
    /// such a property was declared. Nothing changes where it was not.
    pub fn set_property(&mut self, name: &str, value: &str) -> (r: bool)
        ensures
            r == (first_match(old(self)@.properties, named_property(name@)) is Some),
            final(self)@ == old(self)@.with_override(name@, value@),
    {
        let key = name.to_owned();
        match self.find_property_index(&key) {
            Some(i) => {
                let old_p = self.properties.remove(i);
                let p = Property {
                    semantics: old_p.semantics,
                    name: old_p.name,
                    value: value.to_owned(),
                    doc: old_p.doc,
                };
                self.properties.insert(i, p);
                assert(self@.properties =~= old(self)@.with_override(name@, value@).properties);
                true
            },
            None => false,
        }
    }

    /// Declares an input handle, together with the property of the same name
    /// that holds its location.
    pub fn add_input(&mut self, type_tag: &str, name: &str, location: &str, doc: Option<&str>)
        ensures
            final(self)@ == old(self)@.with_input(type_tag@, name@, location@, doc_text(doc)),
    {
        self.add_property(type_tag, name, location, doc);
        let h = DataHandle {
            type_tag: type_tag.to_owned(),
            name: name.to_owned(),
            location: location.to_owned(),
            doc: doc_string(doc),
        };
        self.inputs.push(h);
        assert(self@.inputs =~= old(self)@.with_input(type_tag@, name@, location@, doc_text(doc)).inputs);
    }

    /// Declares an output handle, together with the property of the same name
    /// that holds its location.
    pub fn add_output(&mut self, type_tag: &str, name: &str, location: &str, doc: Option<&str>)
        ensures
            final(self)@ == old(self)@.with_output(type_tag@, name@, location@, doc_text(doc)),
    {
        self.add_property(type_tag, name, location, doc);
        let h = DataHandle {
            type_tag: type_tag.to_owned(),
            name: name.to_owned(),
            location: location.to_owned(),
            doc: doc_string(doc),
        };
        self.outputs.push(h);
        assert(self@.outputs =~= old(self)@.with_output(type_tag@, name@, location@, doc_text(doc)).outputs);
    }

    /// Hands `value` over to the store, for the event of `ctx`, at the location
    /// of the output handle `key`. The host refuses a key that names no output
    /// handle, and a location that already holds an object for the event.
    pub fn put(&mut self, ctx: &EventContext, key: &str, value: BoxedDataObject) -> (r: Result<(), String>)
        ensures
            (final(self)@, error_text(r)) == old(self)@.put(ctx.evt, key@, value),
    {
        proof {
            reveal_strlit("unknown output handle");
            reveal_strlit("location already holds an object for this event");
        }
        let key = key.to_owned();
        if !self.find_output(&key) {
            return Err("unknown output handle".to_owned());
        }
        let location = match self.find_property_index(&key) {
            Some(i) => self.properties[i].value.clone(),
            None => {
                return Err("unknown output handle".to_owned());
            },
        };
        if self.find_entry(ctx.evt, &location).is_some() {
            return Err("location already holds an object for this event".to_owned());
        }
        let e = StoreEntry { evt: ctx.evt, location, handle: key, value };
        self.store.push(e);
        assert(self@.store =~= old(self)@.put(ctx.evt, key@, value).0.store);
        Ok(())
    }

    /// Places an object that another component produced at `location` for
    /// the event of `ctx`; refused where the location already holds one.
    pub fn insert_object(&mut self, ctx: &EventContext, location: &str, value: BoxedDataObject) -> (r: bool)
        ensures
            (final(self)@, r) == old(self)@.insert(ctx.evt, location@, value),
    {
        let location = location.to_owned();
        if self.find_entry(ctx.evt, &location).is_some() {
            return false;
        }
        let e = StoreEntry { evt: ctx.evt, location, handle: String::new(), value };
        self.store.push(e);
        assert(self@.store =~= old(self)@.insert(ctx.evt, location@, value).0.store);
        true
    }

    /// Empties the store, once its objects have been handed on; everything
    /// else stays.
    pub fn clear_store(&mut self)
        ensures
            final(self)@ == (HostView { store: Seq::empty(), ..old(self)@ }),
    {
        self.store = Vec::new();
        assert(self@.store =~= Seq::<EntryView>::empty());
    }

    /// Borrows the object stored for the event of `ctx` at the location that
    /// the data handle `key` resolves to; nothing where `key` names no
    /// declared input or output handle, or that location holds none.
    pub fn get<'a>(&'a self, ctx: &EventContext, key: &str) -> (r: Option<DataObjectRef<'a>>)
        ensures
            r is None <==> self@.get(ctx.evt, key@) is None,
            r matches Some(d) ==> self@.get(ctx.evt, key@) == Some(*d.0),
    {
        let key = key.to_owned();
        if !self.find_input(&key) && !self.find_output(&key) {
            return None;
        }
        match self.find_property_index(&key) {
            Some(i) => match self.find_entry(ctx.evt, &self.properties[i].value) {
                Some(j) => Some(DataObjectRef(&self.store[j].value)),
                None => None,
            },
            None => None,
        }
    }
    /// The declared properties, in declaration order.
    pub fn properties(&self) -> (r: &Vec<Property>)
        ensures
            r@.map_values(|p: Property| p@) == self@.properties,
    {
        &self.properties
    }

    /// The declared input handles, in declaration order.
    pub fn inputs(&self) -> (r: &Vec<DataHandle>)
        ensures
            r@.map_values(|h: DataHandle| h@) == self@.inputs,
    {
        &self.inputs
    }

    /// The declared output handles, in declaration order.
    pub fn outputs(&self) -> (r: &Vec<DataHandle>)
        ensures
            r@.map_values(|h: DataHandle| h@) == self@.outputs,
    {
        &self.outputs
    }

    /// The messages handed to the sink, oldest first.
    pub fn messages(&self) -> (r: &Vec<Message>)
        ensures
            r@.map_values(|m: Message| m@) == self@.messages,
    {
        &self.messages
    }

    /// The objects in the store, in the order they were put.
    pub fn store(&self) -> (r: &Vec<StoreEntry>)
        ensures
            r@.map_values(|e: StoreEntry| e@) == self@.store,
    {
        &self.store
    }
}

} // verus!

use vstd::prelude::*;

use crate::algorithm::{Action, Algorithm, Declaration, Stage, opt_text};
use crate::host::doc_text;

verus! {

/// `a` declares the property `name` of semantics `semantics`, with the
/// default `default` and the documentation `doc`.
pub open spec fn declares_property<A>(
    a: Action<A>,
    semantics: Seq<char>,
    name: Seq<char>,
    default: Seq<char>,
    doc: Seq<char>,
) -> bool {
    match a {
        Action::Declare(Declaration::Property { semantics: s, name: n, default: d, doc: o }) => {
            &&& s@ == semantics
            &&& n@ == name
            &&& d@ == default
            &&& opt_text(o) == doc
        },
        _ => false,
    }
}

/// `a` declares the input handle `name` of type `type_tag` at `location`.
pub open spec fn declares_input<A>(
    a: Action<A>,
    type_tag: Seq<char>,
    name: Seq<char>,
    location: Seq<char>,
    doc: Seq<char>,
) -> bool {
    match a {
        Action::Declare(Declaration::Input { type_tag: t, name: n, location: l, doc: o }) => {
            &&& t@ == type_tag
            &&& n@ == name
            &&& l@ == location
            &&& opt_text(o) == doc
        },
        _ => false,
    }
}

/// `a` declares the output handle `name` of type `type_tag` at `location`.
pub open spec fn declares_output<A>(
    a: Action<A>,
    type_tag: Seq<char>,
    name: Seq<char>,
    location: Seq<char>,
    doc: Seq<char>,
) -> bool {
    match a {
        Action::Declare(Declaration::Output { type_tag: t, name: n, location: l, doc: o }) => {
            &&& t@ == type_tag
            &&& n@ == name
            &&& l@ == location
            &&& opt_text(o) == doc
        },
        _ => false,
    }
}

fn owned_doc(doc: Option<&str>) -> (r: Option<String>)
    ensures
        opt_text(r) == doc_text(doc),
{
    match doc {
        Some(d) => Some(d.to_owned()),
        None => None,
    }
}

/// Assembles a component action by action. Each `add_*` appends to the list
/// of one stage; the execute action is replaced, the last one set wins. The
/// component's state is the default one throughout: no builder method
/// touches it.
pub struct AlgorithmBuilder<S: Default, A, E> {
    algorithm: Algorithm<S, A, E>,
}

impl<S: Default, A, E> AlgorithmBuilder<S, A, E> {
    /// The component that `build` gives.
    pub closed spec fn spec_build(&self) -> Algorithm<S, A, E> {
        self.algorithm
    }

    /// The state of the component under construction is a value that
    /// `S::default()` gives.
    #[verifier::type_invariant]
    spec fn default_state(&self) -> bool {
        call_ensures(S::default, (), self.algorithm.spec_state())
    }

    /// `self` is `old` with `a` appended to the list of `stage`.
    pub open spec fn appended(self, old: Self, stage: Stage, a: Action<A>) -> bool {
        &&& self.spec_build().actions(stage) == old.spec_build().actions(stage).push(a)
        &&& forall|st: Stage|
            st != stage ==> self.spec_build().actions(st) == old.spec_build().actions(st)
        &&& self.spec_build().spec_state() == old.spec_build().spec_state()
        &&& self.spec_build().spec_execute_action() == old.spec_build().spec_execute_action()
    }

    fn append(self, stage: Stage, a: Action<A>) -> (r: Self)
        ensures
            r.appended(self, stage, a),
    {
        proof {
            use_type_invariant(&self);
        }
        let AlgorithmBuilder { mut algorithm } = self;
        algorithm.push_action(stage, a);
        AlgorithmBuilder { algorithm }
    }
}

impl<S: Default, A, E> AlgorithmBuilder<S, A, E> {
    /// A builder with no actions, whose component state is `S::default()`.
    pub fn new() -> (r: Self)
        ensures
            forall|st: Stage| r.spec_build().actions(st).len() == 0,
            r.spec_build().spec_execute_action() is None,
            call_ensures(S::default, (), r.spec_build().spec_state()),
    {
        AlgorithmBuilder::default()
    }
}

impl<S: Default, A, E> Default for AlgorithmBuilder<S, A, E> {
    fn default() -> (r: Self)
        ensures
            forall|st: Stage| r.spec_build().actions(st).len() == 0,
            r.spec_build().spec_execute_action() is None,
            call_ensures(S::default, (), r.spec_build().spec_state()),
    {
        AlgorithmBuilder { algorithm: Algorithm::default() }
    }
}

impl<S: Default, A, E> AlgorithmBuilder<S, A, E> {
    pub fn add_bind_host_action(self, action: A) -> (r: Self)
        ensures
            r.appended(self, Stage::Bind, Action::Custom(action)),
    {
        self.append(Stage::Bind, Action::Custom(action))
    }

    /// Adds a bind action that declares a property with the host.
    pub fn add_property(self, semantics: &str, name: &str, default: &str, doc: Option<&str>) -> (r: Self)
        ensures
            exists|a: Action<A>|
                r.appended(self, Stage::Bind, a) && declares_property(
                    a,
                    semantics@,
                    name@,
                    default@,
                    doc_text(doc),
                ),
    {
        let a = Action::Declare(
            Declaration::Property {
                semantics: semantics.to_owned(),
                name: name.to_owned(),
                default: default.to_owned(),
                doc: owned_doc(doc),
            },
        );
        assert(declares_property(a, semantics@, name@, default@, doc_text(doc)));
        self.append(Stage::Bind, a)
    }

    /// Adds a bind action that declares an input handle with the host.
    pub fn add_input(self, type_tag: &str, name: &str, location: &str, doc: Option<&str>) -> (r: Self)
        ensures
            exists|a: Action<A>|
                r.appended(self, Stage::Bind, a) && declares_input(
                    a,
                    type_tag@,
                    name@,
                    location@,
                    doc_text(doc),
                ),
    {
        let a = Action::Declare(
            Declaration::Input {
                type_tag: type_tag.to_owned(),
                name: name.to_owned(),
                location: location.to_owned(),
                doc: owned_doc(doc),
            },
        );
        assert(declares_input(a, type_tag@, name@, location@, doc_text(doc)));
        self.append(Stage::Bind, a)
    }

    /// Adds a bind action that declares an output handle with the host.
    pub fn add_output(self, type_tag: &str, name: &str, location: &str, doc: Option<&str>) -> (r: Self)
        ensures
            exists|a: Action<A>|
                r.appended(self, Stage::Bind, a) && declares_output(
                    a,
                    type_tag@,
                    name@,
                    location@,
                    doc_text(doc),
                ),
    {
        let a = Action::Declare(
            Declaration::Output {
                type_tag: type_tag.to_owned(),
                name: name.to_owned(),
                location: location.to_owned(),
                doc: owned_doc(doc),
            },
        );
        assert(declares_output(a, type_tag@, name@, location@, doc_text(doc)));
        self.append(Stage::Bind, a)
    }

    pub fn add_initialize_action(self, action: A) -> (r: Self)
        ensures
            r.appended(self, Stage::Initialize, Action::Custom(action)),
    {
        self.append(Stage::Initialize, Action::Custom(action))
    }

    pub fn add_start_action(self, action: A) -> (r: Self)
        ensures
            r.appended(self, Stage::Start, Action::Custom(action)),
    {
        self.append(Stage::Start, Action::Custom(action))
    }

    pub fn add_stop_action(self, action: A) -> (r: Self)
        ensures
            r.appended(self, Stage::Stop, Action::Custom(action)),
    {
        self.append(Stage::Stop, Action::Custom(action))
    }

    pub fn add_finalize_action(self, action: A) -> (r: Self)
        ensures
            r.appended(self, Stage::Finalize, Action::Custom(action)),
    {
        self.append(Stage::Finalize, Action::Custom(action))
    }

    /// Sets the execute action, replacing any set before.
    pub fn set_execute_action(self, action: E) -> (r: Self)
        ensures
            forall|st: Stage| r.spec_build().actions(st) == self.spec_build().actions(st),
            r.spec_build().spec_state() == self.spec_build().spec_state(),
            r.spec_build().spec_execute_action() == Some(action),
    {
        proof {
            use_type_invariant(&self);
        }
        let AlgorithmBuilder { mut algorithm } = self;
        algorithm.replace_execute_action(action);
        AlgorithmBuilder { algorithm }
    }

    /// The assembled component, whose state is the default one.
    pub fn build(self) -> (r: Algorithm<S, A, E>)
        ensures
            r == self.spec_build(),
            call_ensures(S::default, (), r.spec_state()),
    {
        proof {
            use_type_invariant(&self);
        }
        let AlgorithmBuilder { algorithm } = self;
        algorithm
    }
}

} // verus!

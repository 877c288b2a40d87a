use vstd::prelude::*;

use crate::event::EventContext;
use crate::host::{doc_text, error_text, Host, HostView};

verus! {

/// The effect of running one action, or a whole stage: the component state
/// and host that result, and the failure text, if any.
pub ghost struct StageOutcome<S> {
    pub state: S,
    pub host: HostView,
    pub error: Option<Seq<char>>,
}

/// A behaviour contributed to one lifecycle stage: given the component state
/// and the host facade, it succeeds or fails with a descriptive text.
pub trait StageAction<S> {
    /// The effect of the action. A verified implementation states it; the
    /// default leaves it unspecified, so nothing is proved of such an action.
    closed spec fn outcome(&self, state: S, host: HostView) -> StageOutcome<S> {
        arbitrary()
    }

    fn run(&self, state: &mut S, host: &mut Host) -> (r: Result<(), String>)
        ensures
            ({
                let o = self.outcome(*old(state), old(host)@);
                &&& *final(state) == o.state
                &&& final(host)@ == o.host
                &&& error_text(r) == o.error
            }),
    ;
}

/// The behaviour of the execute stage: it reads the component state and
/// works on the host for one event.
pub trait ExecuteAction<S> {
    /// The effect of the action; unspecified unless an implementation states it.
    closed spec fn outcome(&self, state: S, host: HostView, ctx: EventContext) -> (HostView, Option<Seq<char>>) {
        arbitrary()
    }

    fn execute(&self, state: &S, host: &mut Host, ctx: &EventContext) -> (r: Result<(), String>)
        ensures
            (final(host)@, error_text(r)) == self.outcome(*state, old(host)@, *ctx),
    ;
}

/// A declaration made with the host during the bind stage.
pub enum Declaration {
    Property { semantics: String, name: String, default: String, doc: Option<String> },
    Input { type_tag: String, name: String, location: String, doc: Option<String> },
    Output { type_tag: String, name: String, location: String, doc: Option<String> },
}

pub open spec fn opt_text(doc: Option<String>) -> Seq<char> {
    match doc {
        Some(d) => d@,
        None => Seq::empty(),
    }
}

impl Declaration {
    pub open spec fn declare(self, host: HostView) -> HostView {
        match self {
            Declaration::Property { semantics, name, default, doc } => host.with_property(
                semantics@,
                name@,
                default@,
                opt_text(doc),
            ),
            Declaration::Input { type_tag, name, location, doc } => host.with_input(
                type_tag@,
                name@,
                location@,
                opt_text(doc),
            ),
            Declaration::Output { type_tag, name, location, doc } => host.with_output(
                type_tag@,
                name@,
                location@,
                opt_text(doc),
            ),
        }
    }
}

fn opt_str(doc: &Option<String>) -> (r: Option<&str>)
    ensures
        doc_text(r) == opt_text(*doc),
{
    match doc {
        Some(d) => Some(d.as_str()),
        None => None,
    }
}

/// One entry of a stage's action list: a declaration that the builder added,
/// or an action of the component's author.
pub enum Action<A> {
    Declare(Declaration),
    Custom(A),
}

impl<S, A: StageAction<S>> StageAction<S> for Action<A> {
    open spec fn outcome(&self, state: S, host: HostView) -> StageOutcome<S> {
        match self {
            Action::Declare(d) => StageOutcome { state, host: d.declare(host), error: None },
            Action::Custom(a) => a.outcome(state, host),
        }
    }

    fn run(&self, state: &mut S, host: &mut Host) -> (r: Result<(), String>) {
        match self {
            Action::Declare(d) => {
                match d {
                    Declaration::Property { semantics, name, default, doc } => {
                        host.add_property(semantics.as_str(), name.as_str(), default.as_str(), opt_str(doc));
                    },
                    Declaration::Input { type_tag, name, location, doc } => {
                        host.add_input(type_tag.as_str(), name.as_str(), location.as_str(), opt_str(doc));
                    },
                    Declaration::Output { type_tag, name, location, doc } => {
                        host.add_output(type_tag.as_str(), name.as_str(), location.as_str(), opt_str(doc));
                    },
                }
                Ok(())
            },
            Action::Custom(a) => a.run(state, host),
        }
    }
}

/// Runs `actions` in order from `state` and `host`; the first failure ends the
/// stage, and no later action runs.
pub open spec fn run_actions<S, T: StageAction<S>>(actions: Seq<T>, state: S, host: HostView) -> StageOutcome<S>
    decreases actions.len(),
{
    if actions.len() == 0 {
        StageOutcome { state, host, error: None }
    } else {
        let o = actions[0].outcome(state, host);
        if o.error is Some {
            o
        } else {
            run_actions(actions.drop_first(), o.state, o.host)
        }
    }
}

/// Runs the actions of one stage in the order they were registered, stopping
/// at the first failure, whose text is returned.
pub fn run_stage<S, T: StageAction<S>>(actions: &Vec<T>, state: &mut S, host: &mut Host) -> (r: Result<(), String>)
    ensures
        ({
            let o = run_actions(actions@, *old(state), old(host)@);
            &&& *final(state) == o.state
            &&& final(host)@ == o.host
            &&& error_text(r) == o.error
        }),
{
    let ghost goal = run_actions(actions@, *state, host@);
    let mut i: usize = 0;
    assert(actions@.skip(0) =~= actions@);
    while i < actions.len()
        invariant
            i <= actions@.len(),
            goal == run_actions(actions@, *old(state), old(host)@),
            run_actions(actions@.skip(i as int), *state, host@) == goal,
        decreases actions.len() - i,
    {
        let ghost rest = actions@.skip(i as int);
        assert(rest[0] == actions@[i as int]);
        assert(rest.drop_first() =~= actions@.skip(i + 1));
        let r = actions[i].run(state, host);
        match r {
            Err(e) => {
                return Err(e);
            },
            Ok(()) => {},
        }
        i = i + 1;
    }
    assert(actions@.skip(i as int) =~= Seq::<T>::empty());
    Ok(())
}

/// Running two lists one after the other is running the first and, if it
/// succeeded, the second from where the first left off: actions run in the
/// order they were added, and a failure stops everything after it.
pub proof fn law_stage_order<S, T: StageAction<S>>(a: Seq<T>, b: Seq<T>, state: S, host: HostView)
    ensures
        ({
            let first = run_actions(a, state, host);
            run_actions(a + b, state, host) == if first.error is Some {
                first
            } else {
                run_actions(b, first.state, first.host)
            }
        }),
    decreases a.len(),
{
    if a.len() > 0 {
        let o = a[0].outcome(state, host);
        assert((a + b)[0] == a[0]);
        assert((a + b).drop_first() =~= a.drop_first() + b);
        if o.error is None {
            law_stage_order(a.drop_first(), b, o.state, o.host);
        }
    } else {
        assert(a + b =~= b);
    }
}

/// A failing action ends its stage with its own failure text, whatever the
/// actions registered after it would do.
pub proof fn law_failure_stops_stage<S, T: StageAction<S>>(a: Seq<T>, failing: T, rest: Seq<T>, state: S, host: HostView)
    requires
        run_actions(a, state, host).error is None,
        failing.outcome(run_actions(a, state, host).state, run_actions(a, state, host).host).error is Some,
    ensures
        run_actions(a.push(failing) + rest, state, host) == failing.outcome(
            run_actions(a, state, host).state,
            run_actions(a, state, host).host,
        ),
{
    law_stage_order(a, seq![failing] + rest, state, host);
    assert(a.push(failing) + rest =~= a + (seq![failing] + rest));
    assert((seq![failing] + rest)[0] == failing);
}

/// The stages of the lifecycle, in the order the host drives them. Execute
/// is not among them: it repeats between start and stop.
#[derive(Clone, Copy, Debug, PartialEq, Eq, Structural)]
pub enum Stage {
    Bind,
    Initialize,
    Start,
    Stop,
    Finalize,
}

/// A component assembled from ordered actions per stage, one execute action
/// and a state of its own that only its actions touch.
pub struct Algorithm<S, A, E> {
    pub(crate) bind_host_actions: Vec<Action<A>>,
    pub(crate) initialize_actions: Vec<Action<A>>,
    pub(crate) start_actions: Vec<Action<A>>,
    pub(crate) stop_actions: Vec<Action<A>>,
    pub(crate) finalize_actions: Vec<Action<A>>,
    pub(crate) state: S,
    pub(crate) execute_action: Option<E>,
}

impl<S, A, E> Algorithm<S, A, E> {
    /// The actions registered for `stage`, in registration order.
    pub closed spec fn actions(&self, stage: Stage) -> Seq<Action<A>> {
        match stage {
            Stage::Bind => self.bind_host_actions@,
            Stage::Initialize => self.initialize_actions@,
            Stage::Start => self.start_actions@,
            Stage::Stop => self.stop_actions@,
            Stage::Finalize => self.finalize_actions@,
        }
    }

    pub closed spec fn spec_state(&self) -> S {
        self.state
    }

    pub closed spec fn spec_execute_action(&self) -> Option<E> {
        self.execute_action
    }

    /// The component's own state.
    pub fn state(&self) -> (r: &S)
        ensures
            *r == self.spec_state(),
    {
        &self.state
    }

    /// Whether an execute action was set.
    pub fn has_execute_action(&self) -> (r: bool)
        ensures
            r == self.spec_execute_action() is Some,
    {
        self.execute_action.is_some()
    }

    /// A component with no actions and no execute action.
    pub(crate) fn empty(state: S) -> (r: Self)
        ensures
            forall|st: Stage| r.actions(st).len() == 0,
            r.spec_state() == state,
            r.spec_execute_action() is None,
    {
        Algorithm {
            bind_host_actions: Vec::new(),
            initialize_actions: Vec::new(),
            start_actions: Vec::new(),
            stop_actions: Vec::new(),
            finalize_actions: Vec::new(),
            state,
            execute_action: None,
        }
    }

    /// Appends `action` to the list of `stage`.
    pub(crate) fn push_action(&mut self, stage: Stage, action: Action<A>)
        ensures
            final(self).actions(stage) == old(self).actions(stage).push(action),
            forall|st: Stage| st != stage ==> final(self).actions(st) == old(self).actions(st),
            final(self).spec_state() == old(self).spec_state(),
            final(self).spec_execute_action() == old(self).spec_execute_action(),
    {
        match stage {
            Stage::Bind => self.bind_host_actions.push(action),
            Stage::Initialize => self.initialize_actions.push(action),
            Stage::Start => self.start_actions.push(action),
            Stage::Stop => self.stop_actions.push(action),
            Stage::Finalize => self.finalize_actions.push(action),
        }
    }

    /// Replaces the execute action.
    pub(crate) fn replace_execute_action(&mut self, action: E)
        ensures
            forall|st: Stage| final(self).actions(st) == old(self).actions(st),
            final(self).spec_state() == old(self).spec_state(),
            final(self).spec_execute_action() == Some(action),
    {
        self.execute_action = Some(action);
    }
}

impl<S: Default, A, E> Default for Algorithm<S, A, E> {
    /// A component with a default state, no actions and no execute action.
    fn default() -> (r: Self)
        ensures
            forall|st: Stage| r.actions(st).len() == 0,
            r.spec_execute_action() is None,
            call_ensures(S::default, (), r.spec_state()),
    {
        Algorithm::empty(S::default())
    }
}

/// What the host drives: the five stages and the repeatable execute. A stage
/// either succeeds whole or reports its failure text.
pub trait AlgorithmTrait {
    /// Running `stage` from this component and `host` may give `next`,
    /// `next_host` and the failure `error`.
    spec fn stage_step(
        &self,
        stage: Stage,
        host: HostView,
        next: &Self,
        next_host: HostView,
        error: Option<Seq<char>>,
    ) -> bool;

    spec fn can_execute(&self) -> bool;

    spec fn execute_step(
        &self,
        host: HostView,
        ctx: EventContext,
        next_host: HostView,
        error: Option<Seq<char>>,
    ) -> bool;

    fn bind_host(&mut self, host: &mut Host) -> (r: Result<(), String>)
        ensures
            old(self).stage_step(Stage::Bind, old(host)@, final(self), final(host)@, error_text(r)),
    ;

    fn initialize(&mut self, host: &mut Host) -> (r: Result<(), String>)
        ensures
            old(self).stage_step(Stage::Initialize, old(host)@, final(self), final(host)@, error_text(r)),
    ;

    fn start(&mut self, host: &mut Host) -> (r: Result<(), String>)
        ensures
            old(self).stage_step(Stage::Start, old(host)@, final(self), final(host)@, error_text(r)),
    ;

    fn stop(&mut self, host: &mut Host) -> (r: Result<(), String>)
        ensures
            old(self).stage_step(Stage::Stop, old(host)@, final(self), final(host)@, error_text(r)),
    ;

    fn finalize(&mut self, host: &mut Host) -> (r: Result<(), String>)
        ensures
            old(self).stage_step(Stage::Finalize, old(host)@, final(self), final(host)@, error_text(r)),
    ;

    /// Runs the execute action for one event. A component built without one
    /// cannot execute.
    fn execute(&self, host: &mut Host, ctx: &EventContext) -> (r: Result<(), String>)
        requires
            self.can_execute(),
        ensures
            self.execute_step(old(host)@, *ctx, final(host)@, error_text(r)),
    ;
}

impl<S, A: StageAction<S>, E: ExecuteAction<S>> Algorithm<S, A, E> {
    /// A stage runs the stage's actions in order on the component's own
    /// state and changes nothing else of the component.
    pub open spec fn stage_spec(
        &self,
        stage: Stage,
        host: HostView,
        next: &Self,
        next_host: HostView,
        error: Option<Seq<char>>,
    ) -> bool {
        let o = run_actions(self.actions(stage), self.spec_state(), host);
        &&& next.spec_state() == o.state
        &&& next_host == o.host
        &&& error == o.error
        &&& forall|st: Stage| next.actions(st) == self.actions(st)
        &&& next.spec_execute_action() == self.spec_execute_action()
    }

    fn run_own_stage(&mut self, stage: Stage, host: &mut Host) -> (r: Result<(), String>)
        ensures
            old(self).stage_spec(stage, old(host)@, final(self), final(host)@, error_text(r)),
    {
        match stage {
            Stage::Bind => run_stage(&self.bind_host_actions, &mut self.state, host),
            Stage::Initialize => run_stage(&self.initialize_actions, &mut self.state, host),
            Stage::Start => run_stage(&self.start_actions, &mut self.state, host),
            Stage::Stop => run_stage(&self.stop_actions, &mut self.state, host),
            Stage::Finalize => run_stage(&self.finalize_actions, &mut self.state, host),
        }
    }
}

impl<S, A: StageAction<S>, E: ExecuteAction<S>> AlgorithmTrait for Algorithm<S, A, E> {
    open spec fn stage_step(
        &self,
        stage: Stage,
        host: HostView,
        next: &Self,
        next_host: HostView,
        error: Option<Seq<char>>,
    ) -> bool {
        self.stage_spec(stage, host, next, next_host, error)
    }

    open spec fn can_execute(&self) -> bool {
        self.spec_execute_action() is Some
    }

    open spec fn execute_step(
        &self,
        host: HostView,
        ctx: EventContext,
        next_host: HostView,
        error: Option<Seq<char>>,
    ) -> bool {
        (next_host, error) == self.spec_execute_action()->0.outcome(self.spec_state(), host, ctx)
    }

    fn bind_host(&mut self, host: &mut Host) -> (r: Result<(), String>) {
        self.run_own_stage(Stage::Bind, host)
    }

    fn initialize(&mut self, host: &mut Host) -> (r: Result<(), String>) {
        self.run_own_stage(Stage::Initialize, host)
    }

    fn start(&mut self, host: &mut Host) -> (r: Result<(), String>) {
        self.run_own_stage(Stage::Start, host)
    }

    fn stop(&mut self, host: &mut Host) -> (r: Result<(), String>) {
        self.run_own_stage(Stage::Stop, host)
    }

    fn finalize(&mut self, host: &mut Host) -> (r: Result<(), String>) {
        self.run_own_stage(Stage::Finalize, host)
    }

    fn execute(&self, host: &mut Host, ctx: &EventContext) -> (r: Result<(), String>) {
        match &self.execute_action {
            Some(e) => e.execute(&self.state, host, ctx),
            None => {
                proof {
                    assert(false);
                }
                Ok(())
            },
        }
    }
}

/// Instances assembled from one template keep states of their own: a stage
/// run on one of them leaves the template it shares with the other as it was,
/// and what a stage makes of the other's state depends on that state alone.
pub proof fn law_instances_independent<S, A: StageAction<S>, E: ExecuteAction<S>>(
    x: Algorithm<S, A, E>,
    y: Algorithm<S, A, E>,
    stage: Stage,
    host: HostView,
    x_next: Algorithm<S, A, E>,
    x_host: HostView,
    x_error: Option<Seq<char>>,
)
    requires
        forall|st: Stage| x.actions(st) == y.actions(st),
        x.spec_execute_action() == y.spec_execute_action(),
        x.stage_spec(stage, host, &x_next, x_host, x_error),
    ensures
        forall|st: Stage| #[trigger] x_next.actions(st) == y.actions(st),
        x_next.spec_execute_action() == y.spec_execute_action(),
        forall|other: HostView, y_next: Algorithm<S, A, E>, y_host: HostView, y_error: Option<Seq<char>>|
            #[trigger] y.stage_spec(stage, other, &y_next, y_host, y_error) ==> y_next.spec_state()
                == run_actions(y.actions(stage), y.spec_state(), other).state,
{
}

} // verus!

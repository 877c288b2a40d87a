use vstd::prelude::*;

use crate::algorithm::Stage;

verus! {

/// Where a component stands in its lifecycle.
#[derive(Clone, Copy, Debug, PartialEq, Eq, Structural)]
pub enum Phase {
    Created,
    Bound,
    Initialized,
    Running,
    Stopped,
    Finalized,
    /// A stage failed; the component takes no further stage.
    Broken,
}

impl Phase {
    /// The phase that a successful `stage` leads to, where `stage` may come
    /// next: bind, initialize, then start and stop in pairs, any number of
    /// times, then finalize.
    pub open spec fn spec_after(self, stage: Stage) -> Option<Phase> {
        match (self, stage) {
            (Phase::Created, Stage::Bind) => Some(Phase::Bound),
            (Phase::Bound, Stage::Initialize) => Some(Phase::Initialized),
            (Phase::Initialized, Stage::Start) => Some(Phase::Running),
            (Phase::Stopped, Stage::Start) => Some(Phase::Running),
            (Phase::Running, Stage::Stop) => Some(Phase::Stopped),
            (Phase::Initialized, Stage::Finalize) => Some(Phase::Finalized),
            (Phase::Stopped, Stage::Finalize) => Some(Phase::Finalized),
            _ => None,
        }
    }

    /// Whether `stage` may run now, and the phase after it succeeds.
    pub fn after(self, stage: Stage) -> (r: Option<Phase>)
        ensures
            r == self.spec_after(stage),
    {
        match (self, stage) {
            (Phase::Created, Stage::Bind) => Some(Phase::Bound),
            (Phase::Bound, Stage::Initialize) => Some(Phase::Initialized),
            (Phase::Initialized, Stage::Start) => Some(Phase::Running),
            (Phase::Stopped, Stage::Start) => Some(Phase::Running),
            (Phase::Running, Stage::Stop) => Some(Phase::Stopped),
            (Phase::Initialized, Stage::Finalize) => Some(Phase::Finalized),
            (Phase::Stopped, Stage::Finalize) => Some(Phase::Finalized),
            _ => None,
        }
    }

    /// The phase after `stage` ran with the result `succeeded`; a stage that
    /// may not run now leaves the phase as it is.
    pub open spec fn spec_record(self, stage: Stage, succeeded: bool) -> Phase {
        match self.spec_after(stage) {
            Some(next) => if succeeded {
                next
            } else {
                Phase::Broken
            },
            None => self,
        }
    }

    pub fn record(self, stage: Stage, succeeded: bool) -> (r: Phase)
        ensures
            r == self.spec_record(stage, succeeded),
    {
        match self.after(stage) {
            Some(next) => if succeeded {
                next
            } else {
                Phase::Broken
            },
            None => self,
        }
    }

    /// Execute runs only between a start and the stop that follows it.
    pub fn can_execute(self) -> (r: bool)
        ensures
            r == (self == Phase::Running),
    {
        match self {
            Phase::Running => true,
            _ => false,
        }
    }
}

/// The phase reached by running `stages` in turn, each succeeding, from
/// `from`; nothing where one of them may not come at its turn.
pub open spec fn run_through(from: Phase, stages: Seq<Stage>) -> Option<Phase>
    decreases stages.len(),
{
    if stages.len() == 0 {
        Some(from)
    } else {
        match from.spec_after(stages[0]) {
            Some(next) => run_through(next, stages.drop_first()),
            None => None,
        }
    }
}

/// The stages of `n` start and stop pairs.
pub open spec fn runs(n: nat) -> Seq<Stage>
    decreases n,
{
    if n == 0 {
        Seq::empty()
    } else {
        seq![Stage::Start, Stage::Stop] + runs((n - 1) as nat)
    }
}

proof fn lemma_runs(n: nat)
    requires
        n > 0,
    ensures
        run_through(Phase::Initialized, runs(n)) == Some(Phase::Stopped),
        run_through(Phase::Stopped, runs(n)) == Some(Phase::Stopped),
    decreases n,
{
    let s = runs(n);
    let rest = runs((n - 1) as nat);
    assert(s[0] == Stage::Start);
    assert(s.drop_first()[0] == Stage::Stop);
    assert(s.drop_first().drop_first() =~= rest);
    if n > 1 {
        lemma_runs((n - 1) as nat);
    } else {
        assert(run_through(Phase::Stopped, rest) == Some(Phase::Stopped));
    }
    assert(run_through(Phase::Running, s.drop_first()) == run_through(Phase::Stopped, rest));
    assert(run_through(Phase::Initialized, s) == run_through(Phase::Running, s.drop_first()));
    assert(run_through(Phase::Stopped, s) == run_through(Phase::Running, s.drop_first()));
}

proof fn lemma_run_through_concat(from: Phase, a: Seq<Stage>, b: Seq<Stage>)
    ensures
        run_through(from, a + b) == match run_through(from, a) {
            Some(mid) => run_through(mid, b),
            None => None,
        },
    decreases a.len(),
{
    if a.len() == 0 {
        assert(a + b =~= b);
    } else {
        assert((a + b)[0] == a[0]);
        assert((a + b).drop_first() =~= a.drop_first() + b);
        if let Some(next) = from.spec_after(a[0]) {
            lemma_run_through_concat(next, a.drop_first(), b);
        }
    }
}

/// The declared order is accepted whole: bind, initialize, any number of
/// start and stop pairs, then finalize take a new component to its end; and
/// a stop comes only while the component is running.
pub proof fn law_declared_order(n: nat)
    ensures
        run_through(
            Phase::Created,
            seq![Stage::Bind, Stage::Initialize] + runs(n) + seq![Stage::Finalize],
        ) == Some(Phase::Finalized),
        forall|p: Phase| p != Phase::Running ==> !(#[trigger] p.spec_after(Stage::Stop) is Some),
{
    let head = seq![Stage::Bind, Stage::Initialize];
    let tail = seq![Stage::Finalize];
    lemma_run_through_concat(Phase::Created, head + runs(n), tail);
    lemma_run_through_concat(Phase::Created, head, runs(n));
    assert(head.drop_first()[0] == Stage::Initialize);
    assert(head.drop_first().drop_first() =~= Seq::<Stage>::empty());
    assert(run_through(Phase::Initialized, head.drop_first().drop_first()) == Some(Phase::Initialized));
    assert(run_through(Phase::Bound, head.drop_first()) == Some(Phase::Initialized));
    assert(run_through(Phase::Created, head) == Some(Phase::Initialized));
    if n > 0 {
        lemma_runs(n);
    } else {
        assert(runs(0) =~= Seq::<Stage>::empty());
    }
    assert(tail.drop_first() =~= Seq::<Stage>::empty());
    assert(run_through(Phase::Finalized, tail.drop_first()) == Some(Phase::Finalized));
    assert(run_through(Phase::Stopped, tail) == Some(Phase::Finalized));
    assert(run_through(Phase::Initialized, tail) == Some(Phase::Finalized));
}

} // verus!

use vstd::prelude::*;

verus! {

/// Counts the events a job has processed.
pub struct JobStats {
    events_count: usize,
}

impl JobStats {
    pub closed spec fn count(&self) -> nat {
        self.events_count as nat
    }

    pub fn new() -> (r: JobStats)
        ensures
            r.count() == 0,
    {
        JobStats { events_count: 0 }
    }

    /// Records one more event.
    pub fn add_event(&mut self)
        requires
            old(self).count() < usize::MAX,
        ensures
            final(self).count() == old(self).count() + 1,
    {
        self.events_count = self.events_count + 1;
    }

    pub fn events_count(&self) -> (r: usize)
        ensures
            r == self.count(),
    {
        self.events_count
    }
}

/// A boxed, fresh counter, as handed across to the host.
pub fn new_job_stats() -> (r: Box<JobStats>)
    ensures
        r.count() == 0,
{
    Box::new(JobStats::new())
}

} // verus!

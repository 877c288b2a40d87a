use vstd::prelude::*;

verus! {

/// Descriptor of the unit of work that is being executed: the event number,
/// the processing slot, the sub-slot (present only where the host subdivides
/// slots) and whether the context is valid.
#[derive(Clone, Copy, Debug, PartialEq, Eq, Structural)]
pub struct EventContext {
    pub evt: usize,
    pub slot: usize,
    pub sub_slot: Option<usize>,
    pub valid: bool,
}

impl EventContext {
    pub fn new(evt: usize, slot: usize, sub_slot: Option<usize>, valid: bool) -> (r: EventContext)
        ensures
            r.evt == evt,
            r.slot == slot,
            r.sub_slot == sub_slot,
            r.valid == valid,
    {
        EventContext { evt, slot, sub_slot, valid }
    }

    /// The event sequence number.
    pub fn evt(&self) -> (r: usize)
        ensures
            r == self.evt,
    {
        self.evt
    }

    /// The processing-slot index.
    pub fn slot(&self) -> (r: usize)
        ensures
            r == self.slot,
    {
        self.slot
    }

    /// The sub-slot index, absent when the host does not subdivide slots.
    pub fn sub_slot(&self) -> (r: Option<usize>)
        ensures
            r == self.sub_slot,
    {
        match self.sub_slot {
            Some(s) => Some(s),
            None => None,
        }
    }

    pub fn is_valid(&self) -> (r: bool)
        ensures
            r == self.valid,
    {
        self.valid
    }
}

} // verus!

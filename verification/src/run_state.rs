use vstd::prelude::*;
use crate::event::TraceEvent;

verus! {

/// What the run loop reads of a pid's OS-reported process statistics:
/// the parent pid and the single-letter run state, as a byte.
#[derive(Clone, Copy, PartialEq, Eq, Debug)]
pub struct ProcStat {
    pub ppid: i32,
    pub state: u8,
}

/// What the run loop reads of a pid's OS-reported status: the parent
/// pid.
#[derive(Clone, Copy, PartialEq, Eq, Debug)]
pub struct ProcStatus {
    pub ppid: i32,
}

/// One enriched observation: the raw trace event together with
/// best-effort snapshots of the reporting pid's stat and status.  Both
/// snapshots are optional because the pid may have vanished before the
/// lookup ran; a `RunState` is constructible from any event even when
/// enrichment fails.
#[derive(Clone, Copy, PartialEq, Eq, Debug)]
pub struct RunState {
    pub event: TraceEvent,
    pub stat: Option<ProcStat>,
    pub status: Option<ProcStatus>,
}

impl RunState {
    /// The OS-reported parent of the pid the event concerns, where the
    /// stat lookup succeeded.
    pub open spec fn spec_parent(self) -> Option<i32> {
        match self.stat {
            Some(s) => Some(s.ppid),
            None => None,
        }
    }

    /// Builds an observation from an event and whatever enrichment was
    /// obtained.
    pub fn new(event: TraceEvent, stat: Option<ProcStat>, status: Option<ProcStatus>) -> (r: Self)
        ensures
            r.event == event,
            r.stat == stat,
            r.status == status,
    {
        RunState { event, stat, status }
    }

    /// Returns the OS-reported parent of the pid the event concerns, or
    /// `None` where the stat lookup failed.
    pub fn parent(&self) -> (p: Option<i32>)
        ensures
            p == self.spec_parent(),
    {
        match self.stat {
            Some(s) => Some(s.ppid),
            None => None,
        }
    }
}

impl Default for RunState {
    /// The observation of nothing: no state change seen, no enrichment.
    fn default() -> (r: Self)
        ensures
            r.event == (TraceEvent::Unexpected { raw: 0 }),
            r.stat is None,
            r.status is None,
    {
        RunState { event: TraceEvent::Unexpected { raw: 0 }, stat: None, status: None }
    }
}

} // verus!

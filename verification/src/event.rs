use vstd::prelude::*;

verus! {

/// Signal numbers as Linux reports them for the signals the run loop
/// treats specially.
pub const SIGTRAP: i32 = 5;

/// SIGSEGV: a segmentation fault in the traced process.
pub const SIGSEGV: i32 = 11;

/// SIGSTOP: a plain stop of the traced process.
pub const SIGSTOP: i32 = 19;

/// The trace-control sub-events a stopped process can report.
#[derive(Clone, Copy, PartialEq, Eq, Debug)]
pub enum EventKind {
    /// The process cloned a new thread.
    Clone,
    /// The process forked a child.
    Fork,
    /// The process vforked a child.
    Vfork,
    /// The process replaced its image with a new executable.
    Exec,
    /// The process is about to exit.
    ExitNotify,
}

/// One observed process-state transition, tagged with the pid it
/// concerns.
#[derive(Clone, Copy, PartialEq, Eq, Debug)]
pub enum TraceEvent {
    /// The process exited with the given code.
    Exited { pid: i32, code: i8 },
    /// The process was terminated by a signal.
    Signaled { pid: i32, signal: i32, core_dumped: bool },
    /// The process stopped on delivery of a signal.
    Stopped { pid: i32, signal: i32 },
    /// The process stopped at a trace-control event.
    PtraceEvent { pid: i32, signal: i32, kind: EventKind },
    /// A status the run loop does not model; `raw` keeps what the wait
    /// primitive reported.
    Unexpected { raw: i32 },
}

impl TraceEvent {
    /// The pid the event concerns; zero for an unmodelled status, which
    /// carries none.
    pub open spec fn spec_pid(self) -> i32 {
        match self {
            TraceEvent::Exited { pid, .. } => pid,
            TraceEvent::Signaled { pid, .. } => pid,
            TraceEvent::Stopped { pid, .. } => pid,
            TraceEvent::PtraceEvent { pid, .. } => pid,
            TraceEvent::Unexpected { .. } => 0,
        }
    }

    /// Returns the pid the event concerns, zero for an unmodelled status.
    pub fn pid(&self) -> (p: i32)
        ensures
            p == self.spec_pid(),
    {
        match self {
            TraceEvent::Exited { pid, .. } => *pid,
            TraceEvent::Signaled { pid, .. } => *pid,
            TraceEvent::Stopped { pid, .. } => *pid,
            TraceEvent::PtraceEvent { pid, .. } => *pid,
            TraceEvent::Unexpected { .. } => 0,
        }
    }
}

} // verus!

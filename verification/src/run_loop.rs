use vstd::prelude::*;
use crate::breakpoints::BreakpointTable;
use crate::event::EventKind;
use crate::event::TraceEvent;
use crate::event::SIGSEGV;
use crate::event::SIGSTOP;
use crate::event::SIGTRAP;
use crate::ignored::IgnoredSet;
use crate::run_state::RunState;
use crate::trace_data::at_address;
use crate::trace_data::record_hits;
use crate::trace_data::TraceData;

verus! {

/// What the driver must do next after one observation has been
/// classified.  Resuming a process and detaching from it are
/// trace-control syscalls the driver performs; an error on one of them
/// is fatal to the run.
#[derive(Clone, Copy, PartialEq, Eq, Debug)]
pub enum Action {
    /// Resume `pid`, redelivering `signal` where one is given and
    /// swallowing the stop where none is.
    Continue { pid: i32, signal: Option<i32> },
    /// A process exited: notify the breakpoint machinery that `pid` is
    /// dead; then, unless the run is done, resume the target and
    /// tolerate a failure to do so (the tree may already be gone).
    ChildExited { pid: i32 },
    /// A traced process stopped on SIGTRAP: read its instruction
    /// pointer and hand it to [`RunLoop::trap_step`].
    HandleTrap { pid: i32 },
    /// A traced process reported a clone event: ask the trace-control
    /// layer for the event data and hand the outcome to
    /// [`RunLoop::clone_seen`].
    QueryClone { pid: i32 },
    /// `pid` exec'd into untraced code: detach trace control from it
    /// permanently.
    Detach { pid: i32 },
    /// The run is over; stop waiting for events.
    Stop,
}

/// What the driver must do to finish handling one trap.
#[derive(Clone, Copy, PartialEq, Eq, Debug)]
pub enum TrapAction {
    /// The instruction pointer was unreadable: the process has likely
    /// exited, and the trap resolves as a no-op.
    Nothing,
    /// The resolved address is no known breakpoint: resume the process
    /// with no signal.
    Resume,
    /// The resolved address is a known breakpoint: print the one-time
    /// multithreading warning where `warn` is set, then have the
    /// breakpoint machinery restore and re-arm the trap with counting
    /// gated by `enable`, and hand whether it confirmed a hit to
    /// [`complete_trap`].
    Process { addr: u64, enable: bool, warn: bool },
}

/// The state of one trace run.
pub struct RunLoop {
    /// The originally launched pid; only its exit ends the run.
    pub target: i32,
    /// Whether stops on signals without special handling redeliver the
    /// signal to traced processes.
    pub forward_signals: bool,
    /// Whether the caller asked for no hit counting at all.
    pub no_count: bool,
    /// Live threads beyond the initial one: up on a confirmed clone,
    /// down on an exit notification.  A heuristic gate, not an exact
    /// census.
    pub thread_count: i64,
    /// Whether the one-time multithreading warning is still owed.
    pub unwarned: bool,
    /// The pids that exec'd into untraced code during this run.
    pub ignored: IgnoredSet,
    /// The exit code of the last process seen exiting.
    pub result: i8,
    /// Whether the run is over.
    pub done: bool,
}

/// The breakpoint address a trap resolves to: the instruction pointer
/// sits one byte past the inserted trap instruction, and the subtraction
/// wraps as the machine's address arithmetic does.
pub open spec fn trap_addr(rip: u64) -> u64 {
    if rip == 0 {
        u64::MAX
    } else {
        (rip - 1) as u64
    }
}

/// Returns the breakpoint address a trap at `rip` resolves to.
pub fn trap_addr_of(rip: u64) -> (a: u64)
    ensures
        a == trap_addr(rip),
{
    if rip == 0 {
        u64::MAX
    } else {
        rip - 1
    }
}

/// `n + 1`, held at the top of the machine range.
pub open spec fn inc_sat(n: i64) -> i64 {
    if n == i64::MAX {
        n
    } else {
        (n + 1) as i64
    }
}

/// `n - 1`, held at the bottom of the machine range.
pub open spec fn dec_sat(n: i64) -> i64 {
    if n == i64::MIN {
        n
    } else {
        (n - 1) as i64
    }
}

/// Whether a stopped pid belongs to ignored territory: it exec'd away
/// itself, or its OS-reported parent did (the child of an exec'd-away
/// process inherits ignored status).  A failed parent lookup counts for
/// nothing: the pid is then treated as traced.
pub open spec fn spec_is_ignored(ignored: Seq<i32>, pid: i32, parent: Option<i32>) -> bool {
    ignored.contains(pid) || (parent matches Some(p) && ignored.contains(p))
}

/// Decides whether a stopped pid belongs to ignored territory.
pub fn is_ignored(ignored: &IgnoredSet, pid: i32, parent: &Option<i32>) -> (r: bool)
    ensures
        r == spec_is_ignored(ignored@, pid, *parent),
{
    if ignored.contains(pid) {
        true
    } else {
        match parent {
            Some(p) => ignored.contains(*p),
            None => false,
        }
    }
}

/// The transition relation of the run loop: what one observation does to
/// the state, and which action it demands of the driver.
pub open spec fn step_spec(pre: RunLoop, st: RunState, post: RunLoop, a: Action) -> bool {
    match st.event {
        TraceEvent::Exited { pid, code } => {
            &&& post == (RunLoop { result: code, done: pre.done || pid == pre.target, ..pre })
            &&& a == (Action::ChildExited { pid })
        },
        TraceEvent::Stopped { pid, signal } => {
            let ign = spec_is_ignored(pre.ignored@, pid, st.spec_parent());
            if signal == SIGTRAP {
                &&& post == pre
                &&& a == (if ign {
                    Action::Continue { pid, signal: Some(SIGTRAP) }
                } else {
                    Action::HandleTrap { pid }
                })
            } else if signal == SIGSTOP {
                &&& post == pre
                &&& a == (Action::Continue {
                    pid,
                    signal: if ign {
                        Some(SIGSTOP)
                    } else {
                        None
                    },
                })
            } else if signal == SIGSEGV {
                if ign {
                    &&& post == pre
                    &&& a == (Action::Continue { pid, signal: Some(SIGSEGV) })
                } else {
                    &&& post == (RunLoop { done: true, ..pre })
                    &&& a == Action::Stop
                }
            } else {
                &&& post == pre
                &&& a == (Action::Continue {
                    pid,
                    signal: if pre.forward_signals || ign {
                        Some(signal)
                    } else {
                        None
                    },
                })
            }
        },
        TraceEvent::PtraceEvent { pid, signal, kind } => {
            if signal != SIGTRAP {
                &&& post == (RunLoop { done: true, ..pre })
                &&& a == Action::Stop
            } else {
                let ign = spec_is_ignored(pre.ignored@, pid, st.spec_parent());
                match kind {
                    EventKind::Clone => {
                        &&& post == pre
                        &&& a == (if ign {
                            Action::Continue { pid, signal: Some(SIGTRAP) }
                        } else {
                            Action::QueryClone { pid }
                        })
                    },
                    EventKind::Fork => {
                        &&& post == pre
                        &&& a == (Action::Continue {
                            pid,
                            signal: if ign {
                                Some(SIGTRAP)
                            } else {
                                None
                            },
                        })
                    },
                    EventKind::Vfork => {
                        &&& post == pre
                        &&& a == (Action::Continue {
                            pid,
                            signal: if ign {
                                Some(SIGTRAP)
                            } else {
                                None
                            },
                        })
                    },
                    EventKind::Exec => {
                        &&& post == (RunLoop { ignored: post.ignored, ..pre })
                        &&& post.ignored@ == pre.ignored@.push(pid)
                        &&& a == (Action::Detach { pid })
                    },
                    EventKind::ExitNotify => {
                        if ign {
                            &&& post == pre
                            &&& a == (Action::Continue { pid, signal: Some(SIGTRAP) })
                        } else {
                            &&& post == (RunLoop {
                                thread_count: dec_sat(pre.thread_count),
                                ..pre
                            })
                            &&& a == (Action::Continue { pid, signal: None })
                        }
                    },
                }
            }
        },
        TraceEvent::Signaled { pid, signal, core_dumped } => {
            let ign = spec_is_ignored(pre.ignored@, pid, st.spec_parent());
            if signal == SIGTRAP && core_dumped {
                &&& post == pre
                &&& a == (Action::Continue {
                    pid,
                    signal: if ign {
                        Some(SIGTRAP)
                    } else {
                        None
                    },
                })
            } else {
                &&& post == (RunLoop { done: true, ..pre })
                &&& a == Action::Stop
            }
        },
        TraceEvent::Unexpected { .. } => {
            &&& post == (RunLoop { done: true, ..pre })
            &&& a == Action::Stop
        },
    }
}

/// The transition relation of the breakpoint hit handler, from the
/// instruction-pointer read (`None` where the read failed) and the
/// breakpoint addresses to the new state and what the driver must do.
pub open spec fn trap_spec(
    pre: RunLoop,
    bps: Seq<u64>,
    rip: Option<u64>,
    post: RunLoop,
    t: TrapAction,
) -> bool {
    match rip {
        None => {
            &&& post == pre
            &&& t == TrapAction::Nothing
        },
        Some(r) => {
            let addr = trap_addr(r);
            if !bps.contains(addr) {
                &&& post == pre
                &&& t == TrapAction::Resume
            } else {
                let enable = !pre.no_count && pre.thread_count < 2;
                &&& post == (RunLoop { unwarned: pre.unwarned && enable, ..pre })
                &&& t == (TrapAction::Process { addr, enable, warn: !enable && pre.unwarned })
            }
        },
    }
}

/// The transition relation of a confirmed clone event: where the event
/// data was retrievable the thread count goes up and the process is
/// resumed with no signal; where it was not, nothing happens.
pub open spec fn clone_spec(pre: RunLoop, data_ok: bool, post: RunLoop, resume: bool) -> bool {
    if data_ok {
        &&& post == (RunLoop { thread_count: inc_sat(pre.thread_count), ..pre })
        &&& resume
    } else {
        &&& post == pre
        &&& !resume
    }
}

impl RunLoop {
    /// The state at the start of a run: `target` is stopped under trace
    /// control and about to begin execution, nothing has exec'd away,
    /// the initial thread is not counted, and the multithreading warning
    /// is owed only where counting is wanted at all.
    pub fn new(target: i32, forward_signals: bool, no_count: bool) -> (rl: Self)
        ensures
            rl.target == target,
            rl.forward_signals == forward_signals,
            rl.no_count == no_count,
            rl.thread_count == 0,
            rl.unwarned == !no_count,
            rl.ignored@ == Seq::<i32>::empty(),
            rl.result == 0,
            !rl.done,
    {
        RunLoop {
            target,
            forward_signals,
            no_count,
            thread_count: 0,
            unwarned: !no_count,
            ignored: IgnoredSet::new(),
            result: 0,
            done: false,
        }
    }

    /// Classifies one observation and returns what the driver must do.
    pub fn step(&mut self, st: &RunState) -> (a: Action)
        ensures
            step_spec(*old(self), *st, *final(self), a),
    {
        let parent = st.parent();
        match st.event {
            TraceEvent::Exited { pid, code } => {
                self.result = code;
                if pid == self.target {
                    self.done = true;
                }
                Action::ChildExited { pid }
            },
            TraceEvent::Stopped { pid, signal } => {
                let ign = is_ignored(&self.ignored, pid, &parent);
                if signal == SIGTRAP {
                    if ign {
                        Action::Continue { pid, signal: Some(SIGTRAP) }
                    } else {
                        Action::HandleTrap { pid }
                    }
                } else if signal == SIGSTOP {
                    Action::Continue {
                        pid,
                        signal: if ign {
                            Some(SIGSTOP)
                        } else {
                            None
                        },
                    }
                } else if signal == SIGSEGV {
                    if ign {
                        Action::Continue { pid, signal: Some(SIGSEGV) }
                    } else {
                        self.done = true;
                        Action::Stop
                    }
                } else {
                    Action::Continue {
                        pid,
                        signal: if self.forward_signals || ign {
                            Some(signal)
                        } else {
                            None
                        },
                    }
                }
            },
            TraceEvent::PtraceEvent { pid, signal, kind } => {
                if signal != SIGTRAP {
                    self.done = true;
                    Action::Stop
                } else {
                    let ign = is_ignored(&self.ignored, pid, &parent);
                    match kind {
                        EventKind::Clone => {
                            if ign {
                                Action::Continue { pid, signal: Some(SIGTRAP) }
                            } else {
                                Action::QueryClone { pid }
                            }
                        },
                        EventKind::Fork => {
                            Action::Continue {
                                pid,
                                signal: if ign {
                                    Some(SIGTRAP)
                                } else {
                                    None
                                },
                            }
                        },
                        EventKind::Vfork => {
                            Action::Continue {
                                pid,
                                signal: if ign {
                                    Some(SIGTRAP)
                                } else {
                                    None
                                },
                            }
                        },
                        EventKind::Exec => {
                            self.ignored.insert(pid);
                            Action::Detach { pid }
                        },
                        EventKind::ExitNotify => {
                            if ign {
                                Action::Continue { pid, signal: Some(SIGTRAP) }
                            } else {
                                if self.thread_count > i64::MIN {
                                    self.thread_count = self.thread_count - 1;
                                }
                                Action::Continue { pid, signal: None }
                            }
                        },
                    }
                }
            },
            TraceEvent::Signaled { pid, signal, core_dumped } => {
                if signal == SIGTRAP && core_dumped {
                    let ign = is_ignored(&self.ignored, pid, &parent);
                    Action::Continue {
                        pid,
                        signal: if ign {
                            Some(SIGTRAP)
                        } else {
                            None
                        },
                    }
                } else {
                    self.done = true;
                    Action::Stop
                }
            },
            TraceEvent::Unexpected { .. } => {
                self.done = true;
                Action::Stop
            },
        }
    }

    /// Handles one trap of a traced pid, from the instruction-pointer
    /// read the driver made (`None` where the process had already
    /// vanished).  At a known breakpoint, counting is enabled only where
    /// the caller did not suppress it and fewer than two extra threads
    /// are live; the first trap that finds counting disabled claims the
    /// one-time warning.
    pub fn trap_step(&mut self, rip: Option<u64>, bps: &BreakpointTable) -> (t: TrapAction)
        ensures
            trap_spec(*old(self), bps@, rip, *final(self), t),
    {
        match rip {
            None => TrapAction::Nothing,
            Some(r) => {
                let addr = trap_addr_of(r);
                if !bps.contains(addr) {
                    TrapAction::Resume
                } else {
                    let enable = !self.no_count && self.thread_count < 2;
                    let warn = !enable && self.unwarned;
                    self.unwarned = self.unwarned && enable;
                    TrapAction::Process { addr, enable, warn }
                }
            },
        }
    }

    /// Records the outcome of a clone-event data query and returns
    /// whether the driver must resume the process with no signal.
    pub fn clone_seen(&mut self, data_ok: bool) -> (resume: bool)
        ensures
            clone_spec(*old(self), data_ok, *final(self), resume),
    {
        if data_ok {
            if self.thread_count < i64::MAX {
                self.thread_count = self.thread_count + 1;
            }
            true
        } else {
            false
        }
    }

    /// Whether the run is over.
    pub fn is_done(&self) -> (d: bool)
        ensures
            d == self.done,
    {
        self.done
    }

    /// The run's result: the exit code of the last process seen exiting,
    /// zero where none exited before the run ended.
    pub fn result(&self) -> (r: i8)
        ensures
            r == self.result,
    {
        self.result
    }
}

/// Applies the breakpoint machinery's verdict on one trap: where it
/// confirmed a hit, every record at the breakpoint's address is
/// incremented by exactly one; where it did not, nothing changes.
pub fn complete_trap(traces: &mut Vec<TraceData>, addr: u64, updated: bool)
    requires
        updated ==> forall|k: int|
            0 <= k < old(traces)@.len() && at_address(#[trigger] old(traces)@[k], addr)
                ==> old(traces)@[k].hits < u64::MAX,
    ensures
        final(traces)@.len() == old(traces)@.len(),
        forall|k: int|
            0 <= k < old(traces)@.len() ==> #[trigger] final(traces)@[k] == (if updated
                && at_address(old(traces)@[k], addr) {
                TraceData { address: old(traces)@[k].address, hits: (old(traces)@[k].hits + 1) as u64 }
            } else {
                old(traces)@[k]
            }),
{
    if updated {
        record_hits(traces, addr);
    }
}

} // verus!

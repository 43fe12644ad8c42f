//! Execution core of a coverage tracer.
//!
//! The library is the decision half of a trace-controlled test run: it
//! classifies every process-state change observed for a traced process
//! tree (exits, signal stops, clone/fork/exec notifications), decides
//! which signal to redeliver or suppress, gates breakpoint hit counting,
//! and records hits against the caller's trace-point records.  The
//! syscalls that observe and resume processes are performed by a thin
//! unverified driver around this crate.

pub mod breakpoints;
pub mod event;
pub mod ignored;
pub mod laws;
pub mod replay;
pub mod run_loop;
pub mod run_state;
pub mod trace_data;

pub use breakpoints::BreakpointTable;
pub use event::EventKind;
pub use event::TraceEvent;
pub use event::SIGSEGV;
pub use event::SIGSTOP;
pub use event::SIGTRAP;
pub use ignored::IgnoredSet;
pub use run_loop::complete_trap;
pub use run_loop::is_ignored;
pub use run_loop::trap_addr_of;
pub use run_loop::Action;
pub use run_loop::RunLoop;
pub use run_loop::TrapAction;
pub use replay::replay;
pub use replay::Turn;
pub use run_state::ProcStat;
pub use run_state::ProcStatus;
pub use run_state::RunState;
pub use trace_data::TraceData;
pub use trace_data::record_hits;

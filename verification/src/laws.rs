use vstd::prelude::*;
use crate::event::EventKind;
use crate::event::TraceEvent;
use crate::event::SIGSEGV;
use crate::event::SIGTRAP;
use crate::run_loop::clone_spec;
use crate::run_loop::spec_is_ignored;
use crate::run_loop::step_spec;
use crate::run_loop::trap_addr;
use crate::run_loop::trap_spec;
use crate::run_loop::Action;
use crate::run_loop::RunLoop;
use crate::run_loop::TrapAction;
use crate::run_state::RunState;

verus! {

/// One state of the run loop can follow another: some observation,
/// trap resolution or clone confirmation relates the two.
pub open spec fn evolves(pre: RunLoop, post: RunLoop) -> bool {
    ||| exists|st: RunState, a: Action| #[trigger] step_spec(pre, st, post, a)
    ||| exists|bps: Seq<u64>, rip: Option<u64>, t: TrapAction|
        #[trigger] trap_spec(pre, bps, rip, post, t)
    ||| exists|data_ok: bool, resume: bool| #[trigger] clone_spec(pre, data_ok, post, resume)
}

proof fn lemma_seq_push_contains(s: Seq<i32>, x: i32, y: i32)
    requires
        s.contains(y),
    ensures
        s.push(x).contains(y),
{
    let k = choose|k: int| 0 <= k < s.len() && s[k] == y;
    assert(s.push(x)[k] == y);
}

/// No transition ever removes a pid from the ignored set.
pub proof fn lemma_ignored_monotone(pre: RunLoop, post: RunLoop, c: i32)
    requires
        evolves(pre, post),
        pre.ignored@.contains(c),
    ensures
        post.ignored@.contains(c),
{
    if exists|st: RunState, a: Action| #[trigger] step_spec(pre, st, post, a) {
        let (st, a) = choose|st: RunState, a: Action| #[trigger] step_spec(pre, st, post, a);
        match st.event {
            TraceEvent::PtraceEvent { pid, signal, kind } => {
                if signal == SIGTRAP && kind is Exec {
                    lemma_seq_push_contains(pre.ignored@, pid, c);
                }
            },
            _ => {},
        }
    }
}

/// A pid once in the ignored set is in it in every later state of the
/// run.
pub proof fn lemma_ignored_persists(states: Seq<RunLoop>, c: i32, i: int, j: int)
    requires
        forall|k: int| 0 <= k < states.len() - 1 ==> #[trigger] evolves(states[k], states[k + 1]),
        0 <= i <= j < states.len(),
        states[i].ignored@.contains(c),
    ensures
        states[j].ignored@.contains(c),
    decreases j - i,
{
    if i < j {
        assert(evolves(states[i], states[i + 1]));
        lemma_ignored_monotone(states[i], states[i + 1], c);
        lemma_ignored_persists(states, c, i + 1, j);
    }
}

/// An exec event puts the pid into the ignored set and asks for a
/// permanent detach, whatever the state.
pub proof fn lemma_exec_marks_ignored(pre: RunLoop, st: RunState, post: RunLoop, a: Action, c: i32)
    requires
        step_spec(pre, st, post, a),
        st.event == (TraceEvent::PtraceEvent { pid: c, signal: SIGTRAP, kind: EventKind::Exec }),
    ensures
        post.ignored@.contains(c),
        a == (Action::Detach { pid: c }),
{
    assert(post.ignored@[pre.ignored@.len() as int] == c);
}

/// A SIGTRAP stop of an ignored pid redelivers the signal and changes
/// nothing: the hit handler is never reached for it.
pub proof fn lemma_ignored_trap_redelivered(pre: RunLoop, st: RunState, post: RunLoop, a: Action, c: i32)
    requires
        step_spec(pre, st, post, a),
        st.event == (TraceEvent::Stopped { pid: c, signal: SIGTRAP }),
        pre.ignored@.contains(c),
    ensures
        a == (Action::Continue { pid: c, signal: Some(SIGTRAP) }),
        post == pre,
{
}

/// A detach is asked for only on an exec event, and only for the pid
/// that exec'd: no other observation ever detaches a process.
pub proof fn lemma_detach_only_on_exec(pre: RunLoop, st: RunState, post: RunLoop, a: Action, p: i32)
    requires
        step_spec(pre, st, post, a),
        a == (Action::Detach { pid: p }),
    ensures
        st.event == (TraceEvent::PtraceEvent { pid: p, signal: SIGTRAP, kind: EventKind::Exec }),
{
}

/// A pid that exec'd away is never again handed to the breakpoint hit
/// handler for the rest of the run, even if it later reports SIGTRAP:
/// the later trap is redelivered untouched, and the pid is not detached
/// a second time.
pub proof fn lemma_exec_pid_never_trapped(
    states: Seq<RunLoop>,
    c: i32,
    i: int,
    j: int,
    st_i: RunState,
    a_i: Action,
    st_j: RunState,
    a_j: Action,
)
    requires
        forall|k: int| 0 <= k < states.len() - 1 ==> #[trigger] evolves(states[k], states[k + 1]),
        0 <= i,
        i < j,
        j < states.len() - 1,
        step_spec(states[i], st_i, states[i + 1], a_i),
        st_i.event == (TraceEvent::PtraceEvent { pid: c, signal: SIGTRAP, kind: EventKind::Exec }),
        step_spec(states[j], st_j, states[j + 1], a_j),
        st_j.event == (TraceEvent::Stopped { pid: c, signal: SIGTRAP }),
    ensures
        a_j == (Action::Continue { pid: c, signal: Some(SIGTRAP) }),
        states[j + 1] == states[j],
        forall|p: i32| a_j != (Action::HandleTrap { pid: p }),
        forall|p: i32| a_j != (Action::Detach { pid: p }),
{
    lemma_exec_marks_ignored(states[i], st_i, states[i + 1], a_i, c);
    lemma_ignored_persists(states, c, i + 1, j);
    lemma_ignored_trap_redelivered(states[j], st_j, states[j + 1], a_j, c);
}

/// No transition ever resurrects the one-time warning: once claimed, it
/// stays claimed.
pub proof fn lemma_unwarned_monotone(pre: RunLoop, post: RunLoop)
    requires
        evolves(pre, post),
    ensures
        post.unwarned ==> pre.unwarned,
{
}

/// The warning, once claimed, stays claimed in every later state of the
/// run.
pub proof fn lemma_unwarned_stays_claimed(states: Seq<RunLoop>, i: int, j: int)
    requires
        forall|k: int| 0 <= k < states.len() - 1 ==> #[trigger] evolves(states[k], states[k + 1]),
        0 <= i <= j < states.len(),
        !states[i].unwarned,
    ensures
        !states[j].unwarned,
    decreases j - i,
{
    if i < j {
        assert(evolves(states[i], states[i + 1]));
        lemma_unwarned_monotone(states[i], states[i + 1]);
        lemma_unwarned_stays_claimed(states, i + 1, j);
    }
}

/// Once two or more extra threads are live, a trap at a known breakpoint
/// hands the breakpoint machinery counting disabled, whatever else
/// holds.
pub proof fn lemma_multithreaded_never_counts(
    pre: RunLoop,
    bps: Seq<u64>,
    rip: Option<u64>,
    post: RunLoop,
    t: TrapAction,
)
    requires
        trap_spec(pre, bps, rip, post, t),
        pre.thread_count >= 2,
    ensures
        t matches TrapAction::Process { enable, .. } ==> !enable,
{
}

/// The first trap that finds counting newly disabled claims the one-time
/// warning and asks the driver to emit it.
pub proof fn lemma_first_disabled_trap_warns(
    pre: RunLoop,
    bps: Seq<u64>,
    rip: u64,
    post: RunLoop,
    t: TrapAction,
)
    requires
        trap_spec(pre, bps, Some(rip), post, t),
        bps.contains(trap_addr(rip)),
        pre.unwarned,
        pre.no_count || pre.thread_count >= 2,
    ensures
        t == (TrapAction::Process {
            addr: trap_addr(rip),
            enable: false,
            warn: true,
        }),
        !post.unwarned,
{
}

/// The multithreading warning is asked for at most once per run: after
/// a trap that warned, no later trap warns again.
pub proof fn lemma_warning_at_most_once(
    states: Seq<RunLoop>,
    i: int,
    j: int,
    bps_i: Seq<u64>,
    rip_i: Option<u64>,
    t_i: TrapAction,
    bps_j: Seq<u64>,
    rip_j: Option<u64>,
    t_j: TrapAction,
)
    requires
        forall|k: int| 0 <= k < states.len() - 1 ==> #[trigger] evolves(states[k], states[k + 1]),
        0 <= i,
        i < j,
        j < states.len() - 1,
        trap_spec(states[i], bps_i, rip_i, states[i + 1], t_i),
        t_i matches TrapAction::Process { warn, .. } && warn,
        trap_spec(states[j], bps_j, rip_j, states[j + 1], t_j),
    ensures
        t_j matches TrapAction::Process { warn, .. } ==> !warn,
{
    assert(!states[i + 1].unwarned);
    lemma_unwarned_stays_claimed(states, i + 1, j);
}

/// A trap whose resolved address is a known breakpoint, with counting
/// not suppressed and fewer than two extra threads live, hands the
/// breakpoint machinery counting enabled, does not warn, and changes
/// nothing in the loop state; the recording of the confirmed hit is
/// exactly one increment per matching record, stated on
/// [`crate::trace_data::record_hits`].
pub proof fn lemma_trap_at_breakpoint_counts(
    pre: RunLoop,
    bps: Seq<u64>,
    a0: u64,
    rip: u64,
    post: RunLoop,
    t: TrapAction,
)
    requires
        trap_spec(pre, bps, Some(rip), post, t),
        bps.contains(a0),
        trap_addr(rip) == a0,
        !pre.no_count,
        pre.thread_count < 2,
    ensures
        t == (TrapAction::Process { addr: a0, enable: true, warn: false }),
        post == pre,
{
}

/// The instruction pointer observed one byte past a breakpoint address
/// resolves back to that address, across the whole address space.
pub proof fn lemma_trap_addr_round_trip(a: u64)
    ensures
        a < u64::MAX ==> trap_addr((a + 1) as u64) == a,
        trap_addr(0) == u64::MAX,
{
}

/// Exactly four observations end a run: an exit of the target itself, a
/// SIGSEGV of a pid that is not ignored, a termination by signal other
/// than the group-stop variant, and a status outside the model (a
/// trace-control event with a signal other than SIGTRAP among them).
/// Nothing else ever does.
pub proof fn lemma_what_ends_the_run(pre: RunLoop, st: RunState, post: RunLoop, a: Action)
    requires
        step_spec(pre, st, post, a),
        !pre.done,
    ensures
        post.done <==> {
            ||| st.event matches TraceEvent::Exited { pid, .. } && pid == pre.target
            ||| st.event matches TraceEvent::Stopped { pid, signal } && signal == SIGSEGV
                && !spec_is_ignored(pre.ignored@, pid, st.spec_parent())
            ||| st.event matches TraceEvent::PtraceEvent { signal, .. } && signal != SIGTRAP
            ||| st.event matches TraceEvent::Signaled { signal, core_dumped, .. } && !(signal
                == SIGTRAP && core_dumped)
            ||| st.event is Unexpected
        },
{
}

/// Neither resolving a trap nor confirming a clone event ever ends the
/// run, changes its result, or touches the ignored set or the target.
pub proof fn lemma_trap_and_clone_keep_the_run_going(pre: RunLoop, post: RunLoop)
    requires
        ({
            ||| exists|bps: Seq<u64>, rip: Option<u64>, t: TrapAction|
                #[trigger] trap_spec(pre, bps, rip, post, t)
            ||| exists|data_ok: bool, resume: bool|
                #[trigger] clone_spec(pre, data_ok, post, resume)
        }),
    ensures
        post.done == pre.done,
        post.result == pre.result,
        post.ignored@ == pre.ignored@,
        post.target == pre.target,
{
}

/// An exit ends the run exactly when it is the target's: the run then
/// carries that exit code, and exits of other pids never terminate the
/// loop.
pub proof fn lemma_only_target_exit_ends_run(
    pre: RunLoop,
    st: RunState,
    post: RunLoop,
    a: Action,
    pid: i32,
    code: i8,
)
    requires
        step_spec(pre, st, post, a),
        !pre.done,
        st.event == (TraceEvent::Exited { pid, code }),
    ensures
        post.result == code,
        post.done <==> pid == pre.target,
        a == (Action::ChildExited { pid }),
{
}

/// A SIGSEGV reported for a traced, non-ignored pid ends the run at
/// once, with the result it had, and without reaching the breakpoint hit
/// handler.
pub proof fn lemma_segfault_ends_run(
    pre: RunLoop,
    st: RunState,
    post: RunLoop,
    a: Action,
    pid: i32,
)
    requires
        step_spec(pre, st, post, a),
        st.event == (TraceEvent::Stopped { pid, signal: SIGSEGV }),
        !spec_is_ignored(pre.ignored@, pid, st.spec_parent()),
    ensures
        post.done,
        post.result == pre.result,
        a == Action::Stop,
        forall|p: i32| a != (Action::HandleTrap { pid: p }),
{
}

} // verus!

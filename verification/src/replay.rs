use vstd::prelude::*;
use crate::breakpoints::BreakpointTable;
use crate::event::EventKind;
use crate::event::TraceEvent;
use crate::event::SIGTRAP;
use crate::laws::evolves;
use crate::laws::lemma_exec_marks_ignored;
use crate::laws::lemma_ignored_monotone;
use crate::run_loop::clone_spec;
use crate::run_loop::complete_trap;
use crate::run_loop::step_spec;
use crate::run_loop::trap_spec;
use crate::run_loop::Action;
use crate::run_loop::RunLoop;
use crate::run_loop::TrapAction;
use crate::run_state::RunState;
use crate::trace_data::TraceData;

verus! {

/// One scripted turn of a run: an observation, and what the driver's
/// outside calls would have returned had the loop asked for them.
#[derive(Clone, Copy)]
pub struct Turn {
    /// The enriched observation the wait would deliver.
    pub state: RunState,
    /// What reading the stopped pid's instruction pointer would return.
    pub rip: Option<u64>,
    /// Whether the breakpoint machinery would confirm a hit.
    pub updated: bool,
    /// Whether the clone event data would be retrievable.
    pub data_ok: bool,
}

/// How one scripted turn relates two run-loop states: the observation is
/// classified, and where the loop asks for a trap resolution or a clone
/// confirmation, the scripted outside result is applied too.
pub open spec fn turn_spec(pre: RunLoop, t: Turn, bps: Seq<u64>, post: RunLoop) -> bool {
    exists|a: Action, mid: RunLoop|
        {
            &&& #[trigger] step_spec(pre, t.state, mid, a)
            &&& match a {
                Action::HandleTrap { .. } => exists|ta: TrapAction|
                    #[trigger] trap_spec(mid, bps, t.rip, post, ta),
                Action::QueryClone { .. } => exists|resume: bool|
                    #[trigger] clone_spec(mid, t.data_ok, post, resume),
                _ => post == mid,
            }
        }
}

/// The states a replayed run passes through: one scripted turn between
/// consecutive states, every consumed turn starting from a live run.
pub open spec fn replay_chain(
    chain: Seq<RunLoop>,
    start: RunLoop,
    end: RunLoop,
    turns: Seq<Turn>,
    bps: Seq<u64>,
    n: int,
) -> bool {
    &&& chain.len() == n + 1
    &&& 0 <= n <= turns.len()
    &&& chain[0] == start
    &&& chain[n] == end
    &&& forall|k: int| 0 <= k < n ==> #[trigger] turn_spec(chain[k], turns[k], bps, chain[k + 1])
    &&& forall|k: int| 0 <= k < n ==> !(#[trigger] chain[k]).done
}

/// Drives the run loop over a script of pre-resolved turns, recording
/// the confirmed hits, until the script is exhausted or the run is done;
/// returns how many turns were consumed.  This is the run loop on
/// synthetic events: what the unverified driver does with live
/// processes, minus the syscalls.
pub fn replay(
    rl: &mut RunLoop,
    turns: &Vec<Turn>,
    bps: &BreakpointTable,
    traces: &mut Vec<TraceData>,
) -> (n: usize)
    requires
        forall|k: int|
            0 <= k < old(traces)@.len() ==> #[trigger] old(traces)@[k].hits + turns@.len()
                <= u64::MAX,
    ensures
        n <= turns@.len(),
        n == turns@.len() || final(rl).done,
        final(traces)@.len() == old(traces)@.len(),
        forall|k: int|
            0 <= k < old(traces)@.len() ==> #[trigger] final(traces)@[k].address == old(
                traces,
            )@[k].address,
        forall|k: int|
            0 <= k < old(traces)@.len() ==> old(traces)@[k].hits
                <= #[trigger] final(traces)@[k].hits <= old(traces)@[k].hits + n,
        exists|chain: Seq<RunLoop>|
            #[trigger] replay_chain(chain, *old(rl), *final(rl), turns@, bps@, n as int),
{
    let ghost mut chain: Seq<RunLoop> = seq![*rl];
    let n_turns = turns.len();
    let mut i: usize = 0;
    while i < n_turns && !rl.is_done()
        invariant
            0 <= i <= n_turns,
            n_turns == turns@.len(),
            chain.len() == i + 1,
            chain[0] == *old(rl),
            chain[i as int] == *rl,
            forall|k: int|
                0 <= k < i ==> #[trigger] turn_spec(chain[k], turns@[k], bps@, chain[k + 1]),
            forall|k: int| 0 <= k < i ==> !(#[trigger] chain[k]).done,
            traces@.len() == old(traces)@.len(),
            forall|k: int|
                0 <= k < old(traces)@.len() ==> #[trigger] traces@[k].address == old(
                    traces,
                )@[k].address,
            forall|k: int|
                0 <= k < old(traces)@.len() ==> old(traces)@[k].hits <= #[trigger] traces@[k].hits
                    <= old(traces)@[k].hits + i,
            forall|k: int|
                0 <= k < old(traces)@.len() ==> #[trigger] old(traces)@[k].hits + turns@.len()
                    <= u64::MAX,
        decreases n_turns - i,
    {
        let ghost pre = *rl;
        let t = turns[i];
        let a = rl.step(&t.state);
        let ghost mid = *rl;
        match a {
            Action::HandleTrap { .. } => {
                let ta = rl.trap_step(t.rip, bps);
                match ta {
                    TrapAction::Process { addr, .. } => {
                        complete_trap(traces, addr, t.updated);
                    },
                    _ => {},
                }
                proof {
                    assert(trap_spec(mid, bps@, t.rip, *rl, ta));
                    assert(turn_spec(pre, t, bps@, *rl));
                }
            },
            Action::QueryClone { .. } => {
                let resume = rl.clone_seen(t.data_ok);
                proof {
                    assert(clone_spec(mid, t.data_ok, *rl, resume));
                    assert(turn_spec(pre, t, bps@, *rl));
                }
            },
            _ => {
                proof {
                    assert(*rl == mid);
                    assert(turn_spec(pre, t, bps@, *rl));
                }
            },
        }
        proof {
            chain = chain.push(*rl);
        }
        i += 1;
    }
    proof {
        assert(replay_chain(chain, *old(rl), *rl, turns@, bps@, i as int));
    }
    i
}

/// A scripted turn never removes a pid from the ignored set.
pub proof fn lemma_turn_keeps_ignored(pre: RunLoop, t: Turn, bps: Seq<u64>, post: RunLoop, c: i32)
    requires
        turn_spec(pre, t, bps, post),
        pre.ignored@.contains(c),
    ensures
        post.ignored@.contains(c),
{
    let (a, mid) = choose|a: Action, mid: RunLoop|
        {
            &&& #[trigger] step_spec(pre, t.state, mid, a)
            &&& match a {
                Action::HandleTrap { .. } => exists|ta: TrapAction|
                    #[trigger] trap_spec(mid, bps, t.rip, post, ta),
                Action::QueryClone { .. } => exists|resume: bool|
                    #[trigger] clone_spec(mid, t.data_ok, post, resume),
                _ => post == mid,
            }
        };
    assert(evolves(pre, mid));
    lemma_ignored_monotone(pre, mid, c);
    match a {
        Action::HandleTrap { .. } => {
            assert(evolves(mid, post));
            lemma_ignored_monotone(mid, post, c);
        },
        Action::QueryClone { .. } => {
            assert(evolves(mid, post));
            lemma_ignored_monotone(mid, post, c);
        },
        _ => {},
    }
}

/// In a replayed run, a pid that exec'd away at some turn is in the
/// ignored set in every later state, so its later SIGTRAP stops are
/// redelivered and never reach the hit handler.
pub proof fn lemma_replayed_exec_pid_stays_ignored(
    chain: Seq<RunLoop>,
    turns: Seq<Turn>,
    bps: Seq<u64>,
    n: int,
    i: int,
    j: int,
    c: i32,
)
    requires
        chain.len() == n + 1,
        0 <= n <= turns.len(),
        forall|k: int| 0 <= k < n ==> #[trigger] turn_spec(chain[k], turns[k], bps, chain[k + 1]),
        0 <= i < j <= n,
        turns[i].state.event == (TraceEvent::PtraceEvent {
            pid: c,
            signal: SIGTRAP,
            kind: EventKind::Exec,
        }),
    ensures
        chain[j].ignored@.contains(c),
    decreases j - i,
{
    if j == i + 1 {
        assert(turn_spec(chain[i], turns[i], bps, chain[i + 1]));
        let (a, mid) = choose|a: Action, mid: RunLoop|
            {
                &&& #[trigger] step_spec(chain[i], turns[i].state, mid, a)
                &&& match a {
                    Action::HandleTrap { .. } => exists|ta: TrapAction|
                        #[trigger] trap_spec(mid, bps, turns[i].rip, chain[i + 1], ta),
                    Action::QueryClone { .. } => exists|resume: bool|
                        #[trigger] clone_spec(mid, turns[i].data_ok, chain[i + 1], resume),
                    _ => chain[i + 1] == mid,
                }
            };
        lemma_exec_marks_ignored(chain[i], turns[i].state, mid, a, c);
    } else {
        lemma_replayed_exec_pid_stays_ignored(chain, turns, bps, n, i, j - 1, c);
        assert(turn_spec(chain[j - 1], turns[j - 1], bps, chain[j - 1 + 1]));
        lemma_turn_keeps_ignored(chain[j - 1], turns[j - 1], bps, chain[j], c);
    }
}

} // verus!

use test_runner::Action;
use test_runner::BreakpointTable;
use test_runner::EventKind;
use test_runner::RunLoop;
use test_runner::RunState;
use test_runner::TraceData;
use test_runner::TraceEvent;
use test_runner::TrapAction;
use test_runner::complete_trap;
use test_runner::replay;
use test_runner::Turn;
use test_runner::ProcStat;
use test_runner::SIGSEGV;
use test_runner::SIGSTOP;
use test_runner::SIGTRAP;

fn bare(event: TraceEvent) -> RunState {
    RunState::new(event, None, None)
}

fn with_parent(event: TraceEvent, ppid: i32) -> RunState {
    RunState::new(event, Some(ProcStat { ppid, state: b'S' }), None)
}

#[test]
fn single_breakpoint_hit_then_target_exit() {
    let mut rl = RunLoop::new(7, false, false);
    let mut bps = BreakpointTable::new();
    bps.insert(0x1000);
    let mut traces = vec![
        TraceData::new(Some(0x1000)),
        TraceData::new(Some(0x1000)),
        TraceData::new(Some(0x2000)),
        TraceData::new(None),
    ];

    let a = rl.step(&bare(TraceEvent::Stopped { pid: 7, signal: SIGTRAP }));
    assert_eq!(a, Action::HandleTrap { pid: 7 });

    let t = rl.trap_step(Some(0x1001), &bps);
    assert_eq!(t, TrapAction::Process { addr: 0x1000, enable: true, warn: false });
    complete_trap(&mut traces, 0x1000, true);
    assert_eq!(traces[0].hits, 1);
    assert_eq!(traces[1].hits, 1);
    assert_eq!(traces[2].hits, 0);
    assert_eq!(traces[3].hits, 0);

    let a = rl.step(&bare(TraceEvent::Exited { pid: 7, code: 0 }));
    assert_eq!(a, Action::ChildExited { pid: 7 });
    assert!(rl.is_done());
    assert_eq!(rl.result(), 0);
}

#[test]
fn multithreaded_trap_leaves_counters_unchanged() {
    let mut rl = RunLoop::new(7, false, false);
    rl.thread_count = 2;
    let mut bps = BreakpointTable::new();
    bps.insert(0x1000);
    let mut traces = vec![TraceData::new(Some(0x1000))];

    let a = rl.step(&bare(TraceEvent::Stopped { pid: 7, signal: SIGTRAP }));
    assert_eq!(a, Action::HandleTrap { pid: 7 });
    let t = rl.trap_step(Some(0x1001), &bps);
    assert_eq!(t, TrapAction::Process { addr: 0x1000, enable: false, warn: true });
    // the breakpoint machinery, told not to count, confirms no hit
    complete_trap(&mut traces, 0x1000, false);
    assert_eq!(traces[0].hits, 0);

    // the warning is claimed once: a second trap does not warn again
    let t = rl.trap_step(Some(0x1001), &bps);
    assert_eq!(t, TrapAction::Process { addr: 0x1000, enable: false, warn: false });

    // the run still resumes and ends normally
    let a = rl.step(&bare(TraceEvent::Exited { pid: 7, code: 0 }));
    assert_eq!(a, Action::ChildExited { pid: 7 });
    assert!(rl.is_done());
    assert_eq!(rl.result(), 0);
}

#[test]
fn exec_detaches_and_later_trap_is_redelivered() {
    let mut rl = RunLoop::new(7, false, false);
    let a = rl.step(&bare(TraceEvent::PtraceEvent {
        pid: 9,
        signal: SIGTRAP,
        kind: EventKind::Exec,
    }));
    assert_eq!(a, Action::Detach { pid: 9 });

    let a = rl.step(&bare(TraceEvent::Stopped { pid: 9, signal: SIGTRAP }));
    assert_eq!(a, Action::Continue { pid: 9, signal: Some(SIGTRAP) });
    assert!(!matches!(a, Action::HandleTrap { .. }));
    assert!(!matches!(a, Action::Detach { .. }));
}

#[test]
fn child_of_exec_pid_is_ignored_through_parent() {
    let mut rl = RunLoop::new(7, false, false);
    let a = rl.step(&bare(TraceEvent::PtraceEvent {
        pid: 9,
        signal: SIGTRAP,
        kind: EventKind::Exec,
    }));
    assert_eq!(a, Action::Detach { pid: 9 });

    // a child whose stat names the exec'd pid as parent inherits ignored status
    let a = rl.step(&with_parent(TraceEvent::Stopped { pid: 10, signal: SIGTRAP }, 9));
    assert_eq!(a, Action::Continue { pid: 10, signal: Some(SIGTRAP) });

    // a failed stat lookup fails open: the pid is treated as traced
    let a = rl.step(&bare(TraceEvent::Stopped { pid: 10, signal: SIGTRAP }));
    assert_eq!(a, Action::HandleTrap { pid: 10 });
}

#[test]
fn sigstop_is_swallowed_for_traced_and_redelivered_for_ignored() {
    let mut rl = RunLoop::new(7, false, false);
    let a = rl.step(&bare(TraceEvent::Stopped { pid: 7, signal: SIGSTOP }));
    assert_eq!(a, Action::Continue { pid: 7, signal: None });

    rl.step(&bare(TraceEvent::PtraceEvent { pid: 9, signal: SIGTRAP, kind: EventKind::Exec }));
    let a = rl.step(&bare(TraceEvent::Stopped { pid: 9, signal: SIGSTOP }));
    assert_eq!(a, Action::Continue { pid: 9, signal: Some(SIGSTOP) });
}

#[test]
fn segfault_of_traced_pid_ends_the_run() {
    let mut rl = RunLoop::new(7, false, false);
    let a = rl.step(&bare(TraceEvent::Stopped { pid: 7, signal: SIGSEGV }));
    assert_eq!(a, Action::Stop);
    assert!(rl.is_done());
    assert_eq!(rl.result(), 0);
}

#[test]
fn segfault_of_ignored_pid_is_redelivered() {
    let mut rl = RunLoop::new(7, false, false);
    rl.step(&bare(TraceEvent::PtraceEvent { pid: 9, signal: SIGTRAP, kind: EventKind::Exec }));
    let a = rl.step(&bare(TraceEvent::Stopped { pid: 9, signal: SIGSEGV }));
    assert_eq!(a, Action::Continue { pid: 9, signal: Some(SIGSEGV) });
    assert!(!rl.is_done());
}

#[test]
fn other_signals_follow_the_forwarding_flag() {
    let mut rl = RunLoop::new(7, false, false);
    let a = rl.step(&bare(TraceEvent::Stopped { pid: 7, signal: 15 }));
    assert_eq!(a, Action::Continue { pid: 7, signal: None });

    let mut rl = RunLoop::new(7, true, false);
    let a = rl.step(&bare(TraceEvent::Stopped { pid: 7, signal: 15 }));
    assert_eq!(a, Action::Continue { pid: 7, signal: Some(15) });

    // an ignored pid gets its signal back even without the flag
    let mut rl = RunLoop::new(7, false, false);
    rl.step(&bare(TraceEvent::PtraceEvent { pid: 9, signal: SIGTRAP, kind: EventKind::Exec }));
    let a = rl.step(&bare(TraceEvent::Stopped { pid: 9, signal: 15 }));
    assert_eq!(a, Action::Continue { pid: 9, signal: Some(15) });
}

#[test]
fn confirmed_clone_raises_the_thread_count() {
    let mut rl = RunLoop::new(7, false, false);
    let a = rl.step(&bare(TraceEvent::PtraceEvent {
        pid: 7,
        signal: SIGTRAP,
        kind: EventKind::Clone,
    }));
    assert_eq!(a, Action::QueryClone { pid: 7 });
    assert!(rl.clone_seen(true));
    assert_eq!(rl.thread_count, 1);

    // unretrievable event data: nothing happens, the process stays stopped
    assert!(!rl.clone_seen(false));
    assert_eq!(rl.thread_count, 1);
}

#[test]
fn clone_of_ignored_pid_redelivers_the_trap() {
    let mut rl = RunLoop::new(7, false, false);
    rl.step(&bare(TraceEvent::PtraceEvent { pid: 9, signal: SIGTRAP, kind: EventKind::Exec }));
    let a = rl.step(&bare(TraceEvent::PtraceEvent {
        pid: 9,
        signal: SIGTRAP,
        kind: EventKind::Clone,
    }));
    assert_eq!(a, Action::Continue { pid: 9, signal: Some(SIGTRAP) });
    assert_eq!(rl.thread_count, 0);
}

#[test]
fn fork_events_resume_with_trap_only_for_ignored() {
    let mut rl = RunLoop::new(7, false, false);
    let a = rl.step(&bare(TraceEvent::PtraceEvent {
        pid: 7,
        signal: SIGTRAP,
        kind: EventKind::Fork,
    }));
    assert_eq!(a, Action::Continue { pid: 7, signal: None });
    let a = rl.step(&bare(TraceEvent::PtraceEvent {
        pid: 7,
        signal: SIGTRAP,
        kind: EventKind::Vfork,
    }));
    assert_eq!(a, Action::Continue { pid: 7, signal: None });

    rl.step(&bare(TraceEvent::PtraceEvent { pid: 9, signal: SIGTRAP, kind: EventKind::Exec }));
    let a = rl.step(&bare(TraceEvent::PtraceEvent {
        pid: 9,
        signal: SIGTRAP,
        kind: EventKind::Fork,
    }));
    assert_eq!(a, Action::Continue { pid: 9, signal: Some(SIGTRAP) });
}

#[test]
fn exit_notification_lowers_the_thread_count() {
    let mut rl = RunLoop::new(7, false, false);
    rl.step(&bare(TraceEvent::PtraceEvent { pid: 7, signal: SIGTRAP, kind: EventKind::Clone }));
    rl.clone_seen(true);
    let a = rl.step(&bare(TraceEvent::PtraceEvent {
        pid: 8,
        signal: SIGTRAP,
        kind: EventKind::ExitNotify,
    }));
    assert_eq!(a, Action::Continue { pid: 8, signal: None });
    assert_eq!(rl.thread_count, 0);

    rl.step(&bare(TraceEvent::PtraceEvent { pid: 9, signal: SIGTRAP, kind: EventKind::Exec }));
    let a = rl.step(&bare(TraceEvent::PtraceEvent {
        pid: 9,
        signal: SIGTRAP,
        kind: EventKind::ExitNotify,
    }));
    assert_eq!(a, Action::Continue { pid: 9, signal: Some(SIGTRAP) });
    assert_eq!(rl.thread_count, 0);
}

#[test]
fn group_stop_variant_redelivers_only_for_ignored() {
    let mut rl = RunLoop::new(7, false, false);
    let a = rl.step(&bare(TraceEvent::Signaled { pid: 7, signal: SIGTRAP, core_dumped: true }));
    assert_eq!(a, Action::Continue { pid: 7, signal: None });

    rl.step(&bare(TraceEvent::PtraceEvent { pid: 9, signal: SIGTRAP, kind: EventKind::Exec }));
    let a = rl.step(&bare(TraceEvent::Signaled { pid: 9, signal: SIGTRAP, core_dumped: true }));
    assert_eq!(a, Action::Continue { pid: 9, signal: Some(SIGTRAP) });
}

#[test]
fn unmodelled_statuses_end_the_run() {
    let mut rl = RunLoop::new(7, false, false);
    let a = rl.step(&bare(TraceEvent::Unexpected { raw: 0xffff }));
    assert_eq!(a, Action::Stop);
    assert!(rl.is_done());

    let mut rl = RunLoop::new(7, false, false);
    let a = rl.step(&bare(TraceEvent::Signaled { pid: 7, signal: 9, core_dumped: false }));
    assert_eq!(a, Action::Stop);
    assert!(rl.is_done());

    let mut rl = RunLoop::new(7, false, false);
    let a = rl.step(&bare(TraceEvent::PtraceEvent {
        pid: 7,
        signal: SIGSTOP,
        kind: EventKind::Clone,
    }));
    assert_eq!(a, Action::Stop);
    assert!(rl.is_done());
}

#[test]
fn side_exits_record_the_code_but_do_not_stop() {
    let mut rl = RunLoop::new(7, false, false);
    let a = rl.step(&bare(TraceEvent::Exited { pid: 8, code: 3 }));
    assert_eq!(a, Action::ChildExited { pid: 8 });
    assert!(!rl.is_done());
    assert_eq!(rl.result(), 3);

    let a = rl.step(&bare(TraceEvent::Exited { pid: 7, code: 1 }));
    assert_eq!(a, Action::ChildExited { pid: 7 });
    assert!(rl.is_done());
    assert_eq!(rl.result(), 1);
}

#[test]
fn replayed_script_counts_one_hit_and_stops_at_the_target_exit() {
    let mut rl = RunLoop::new(7, false, false);
    let mut bps = BreakpointTable::new();
    bps.insert(0x1000);
    let mut traces = vec![TraceData::new(Some(0x1000)), TraceData::new(Some(0x2000))];
    let turns = vec![
        Turn {
            state: bare(TraceEvent::Stopped { pid: 7, signal: SIGTRAP }),
            rip: Some(0x1001),
            updated: true,
            data_ok: false,
        },
        Turn {
            state: bare(TraceEvent::Exited { pid: 7, code: 0 }),
            rip: None,
            updated: false,
            data_ok: false,
        },
        // past the target's exit: must not be consumed
        Turn {
            state: bare(TraceEvent::Stopped { pid: 7, signal: SIGTRAP }),
            rip: Some(0x1001),
            updated: true,
            data_ok: false,
        },
    ];
    let n = replay(&mut rl, &turns, &bps, &mut traces);
    assert_eq!(n, 2);
    assert!(rl.is_done());
    assert_eq!(rl.result(), 0);
    assert_eq!(traces[0].hits, 1);
    assert_eq!(traces[1].hits, 0);
}

#[test]
fn replayed_exec_script_never_counts_the_ignored_pid() {
    let mut rl = RunLoop::new(7, false, false);
    let mut bps = BreakpointTable::new();
    bps.insert(0x1000);
    let mut traces = vec![TraceData::new(Some(0x1000))];
    let turns = vec![
        Turn {
            state: bare(TraceEvent::PtraceEvent { pid: 9, signal: SIGTRAP, kind: EventKind::Exec }),
            rip: None,
            updated: false,
            data_ok: false,
        },
        // a later trap of the exec'd pid, with a script that would confirm
        // a hit were the hit handler ever reached
        Turn {
            state: bare(TraceEvent::Stopped { pid: 9, signal: SIGTRAP }),
            rip: Some(0x1001),
            updated: true,
            data_ok: false,
        },
        Turn {
            state: bare(TraceEvent::Exited { pid: 7, code: 2 }),
            rip: None,
            updated: false,
            data_ok: false,
        },
    ];
    let n = replay(&mut rl, &turns, &bps, &mut traces);
    assert_eq!(n, 3);
    assert!(rl.is_done());
    assert_eq!(rl.result(), 2);
    assert_eq!(traces[0].hits, 0);
}

#[test]
fn suppressed_counting_never_warns() {
    let mut rl = RunLoop::new(7, false, true);
    let mut bps = BreakpointTable::new();
    bps.insert(0x1000);
    let t = rl.trap_step(Some(0x1001), &bps);
    assert_eq!(t, TrapAction::Process { addr: 0x1000, enable: false, warn: false });
}

#[test]
fn unreadable_instruction_pointer_is_a_no_op() {
    let mut rl = RunLoop::new(7, false, false);
    let bps = BreakpointTable::new();
    let t = rl.trap_step(None, &bps);
    assert_eq!(t, TrapAction::Nothing);
}

#[test]
fn spurious_trap_just_resumes() {
    let mut rl = RunLoop::new(7, false, false);
    let mut bps = BreakpointTable::new();
    bps.insert(0x1000);
    let t = rl.trap_step(Some(0x3001), &bps);
    assert_eq!(t, TrapAction::Resume);
}

use test_runner::record_hits;
use test_runner::trap_addr_of;
use test_runner::is_ignored;
use test_runner::BreakpointTable;
use test_runner::EventKind;
use test_runner::IgnoredSet;
use test_runner::ProcStat;
use test_runner::ProcStatus;
use test_runner::RunState;
use test_runner::TraceData;
use test_runner::TraceEvent;

#[test]
fn record_hits_touches_only_matching_records() {
    let mut traces = vec![
        TraceData::new(Some(0x40)),
        TraceData::new(Some(0x41)),
        TraceData::new(Some(0x40)),
        TraceData::new(None),
    ];
    record_hits(&mut traces, 0x40);
    record_hits(&mut traces, 0x40);
    record_hits(&mut traces, 0x99);
    assert_eq!(traces[0].hits, 2);
    assert_eq!(traces[1].hits, 0);
    assert_eq!(traces[2].hits, 2);
    assert_eq!(traces[3].hits, 0);
}

#[test]
fn trap_address_sits_one_byte_before_the_instruction_pointer() {
    assert_eq!(trap_addr_of(0x1001), 0x1000);
    assert_eq!(trap_addr_of(1), 0);
    assert_eq!(trap_addr_of(0), u64::MAX);
}

#[test]
fn classifier_reads_pid_and_parent() {
    let mut ign = IgnoredSet::new();
    assert!(!is_ignored(&ign, 5, &None));
    ign.insert(4);
    assert!(is_ignored(&ign, 4, &None));
    assert!(is_ignored(&ign, 5, &Some(4)));
    assert!(!is_ignored(&ign, 5, &Some(3)));
    assert!(!is_ignored(&ign, 5, &None));
}

#[test]
fn ignored_set_grows_and_remembers() {
    let mut ign = IgnoredSet::new();
    assert_eq!(ign.len(), 0);
    assert!(!ign.contains(12));
    ign.insert(12);
    ign.insert(30);
    assert!(ign.contains(12));
    assert!(ign.contains(30));
    assert!(!ign.contains(7));
}

#[test]
fn breakpoint_table_keeps_keys_unique() {
    let mut bps = BreakpointTable::new();
    assert_eq!(bps.len(), 0);
    bps.insert(0x1000);
    bps.insert(0x1000);
    bps.insert(0x2000);
    assert_eq!(bps.len(), 2);
    assert!(bps.contains(0x1000));
    assert!(bps.contains(0x2000));
    assert!(!bps.contains(0x3000));
}

#[test]
fn run_state_is_constructible_without_enrichment() {
    let st = RunState::default();
    assert!(matches!(st.event, TraceEvent::Unexpected { raw: 0 }));
    assert!(st.stat.is_none());
    assert!(st.status.is_none());
    assert_eq!(st.parent(), None);

    let ev = TraceEvent::Stopped { pid: 3, signal: 5 };
    let st = RunState::new(ev, Some(ProcStat { ppid: 1, state: b'R' }), Some(ProcStatus { ppid: 1 }));
    assert_eq!(st.parent(), Some(1));
    assert_eq!(st.event, ev);
}

#[test]
fn events_name_the_pid_they_concern() {
    assert_eq!(TraceEvent::Exited { pid: 3, code: 0 }.pid(), 3);
    assert_eq!(TraceEvent::Signaled { pid: 4, signal: 9, core_dumped: false }.pid(), 4);
    assert_eq!(TraceEvent::Stopped { pid: 5, signal: 19 }.pid(), 5);
    assert_eq!(
        TraceEvent::PtraceEvent { pid: 6, signal: 5, kind: EventKind::Fork }.pid(),
        6
    );
    assert_eq!(TraceEvent::Unexpected { raw: 77 }.pid(), 0);
}

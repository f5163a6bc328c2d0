use devpanel::events::{run_reader, PtyEvent, ReadOutcome};
use devpanel::process_tree::{collect_process_tree, ProcessRecord, ProcessSnapshot};
use devpanel::resource::{sample_usage, ProcessResourceUsage};
use devpanel::session::PtyHandle;

fn record(pid: u32, parent: Option<u32>, cpu_centi: u32, mem: u64) -> ProcessRecord {
    ProcessRecord { pid, parent_pid: parent, cpu_centi_percent: cpu_centi, memory_bytes: mem }
}

#[test]
fn tree_scan_contains_root_and_descendants() {
    let snapshot = ProcessSnapshot {
        processes: vec![
            record(1, None, 0, 0),
            record(2, Some(1), 0, 0),
            record(3, Some(2), 0, 0),
            record(10, Some(9), 0, 0),
        ],
        cpu_count: 1,
    };
    let tree = collect_process_tree(&snapshot, 1);
    assert!(tree.contains(&1));
    assert!(tree.contains(&2));
    assert!(tree.contains(&3));
    assert!(!tree.contains(&10));
    // Closure: every process whose parent is in the set is in the set.
    for rec in &snapshot.processes {
        if let Some(parent) = rec.parent_pid {
            if tree.contains(&parent) {
                assert!(tree.contains(&rec.pid));
            }
        }
    }
}

#[test]
fn tree_scan_survives_a_replaced_root() {
    // The root itself is gone (replaced by an exec), but its children are
    // still seeded from the stale parent id.
    let snapshot = ProcessSnapshot {
        processes: vec![record(20, Some(7), 0, 0), record(21, Some(20), 0, 0)],
        cpu_count: 1,
    };
    let tree = collect_process_tree(&snapshot, 7);
    assert!(!tree.contains(&7));
    assert!(tree.contains(&20));
    assert!(tree.contains(&21));
}

#[test]
fn tree_scan_tolerates_an_empty_result() {
    let snapshot = ProcessSnapshot { processes: vec![], cpu_count: 1 };
    let tree = collect_process_tree(&snapshot, 42);
    assert_eq!(tree.len(), 0);
}

#[test]
fn resource_aggregation_normalizes_by_core_count() {
    // CPU 10% and 20% on a two-core snapshot: 30 / 2 = 15%.
    let snapshot = ProcessSnapshot {
        processes: vec![record(1, None, 1000, 100), record(2, Some(1), 2000, 200)],
        cpu_count: 2,
    };
    let tree = vec![1u32, 2u32];
    let usage = sample_usage(&snapshot, &tree, 1);
    assert_eq!(usage.cpu_centi_percent, 1500);
    assert_eq!(usage.memory_bytes, 300);
}

#[test]
fn resource_aggregation_falls_back_to_the_root() {
    let snapshot = ProcessSnapshot {
        processes: vec![record(5, None, 800, 64)],
        cpu_count: 2,
    };
    let empty: Vec<u32> = vec![];
    let usage = sample_usage(&snapshot, &empty, 5);
    assert_eq!(usage.cpu_centi_percent, 400);
    assert_eq!(usage.memory_bytes, 64);
    let gone = sample_usage(&snapshot, &empty, 99);
    assert_eq!(gone.cpu_centi_percent, 0);
    assert_eq!(gone.memory_bytes, 0);
}

#[test]
fn format_cpu_boundaries() {
    let unsampled = ProcessResourceUsage { cpu_centi_percent: 0, memory_bytes: 0 };
    assert_eq!(unsampled.format_cpu(), "--");
    let half = ProcessResourceUsage { cpu_centi_percent: 50, memory_bytes: 1 };
    assert_eq!(half.format_cpu(), "0.5%");
    let twelve = ProcessResourceUsage { cpu_centi_percent: 1200, memory_bytes: 1 };
    assert_eq!(twelve.format_cpu(), "12%");
    let busy = ProcessResourceUsage { cpu_centi_percent: 123456, memory_bytes: 1 };
    assert_eq!(busy.format_cpu(), "1235%");
    let zero_cpu_sampled = ProcessResourceUsage { cpu_centi_percent: 0, memory_bytes: 5 };
    assert_eq!(zero_cpu_sampled.format_cpu(), "0.0%");
}

#[test]
fn format_memory_boundaries() {
    let m = |b: u64| ProcessResourceUsage { cpu_centi_percent: 0, memory_bytes: b };
    assert_eq!(m(0).format_memory(), "--");
    assert_eq!(m(512).format_memory(), "512B");
    assert_eq!(m(2048).format_memory(), "2.0K");
    assert_eq!(m(1536).format_memory(), "1.5K");
    assert_eq!(m(3 * 1024 * 1024).format_memory(), "3.0M");
    assert_eq!(m(5 * 1024 * 1024 * 1024).format_memory(), "5.00G");
}

#[test]
fn event_ordering_concatenates_output_in_production_order() {
    let outcomes = vec![
        ReadOutcome::Data(b"abc".to_vec()),
        ReadOutcome::Data(b"def".to_vec()),
        ReadOutcome::Eof,
    ];
    let events = run_reader("s1", &outcomes);
    assert_eq!(events.len(), 3);
    let mut bytes: Vec<u8> = Vec::new();
    for ev in &events[..2] {
        match ev {
            PtyEvent::Output { pty_id, data } => {
                assert_eq!(pty_id, "s1");
                bytes.extend_from_slice(data);
            }
            _ => panic!("expected output events first"),
        }
    }
    assert_eq!(bytes, b"abcdef");
    match &events[2] {
        PtyEvent::Exited { pty_id, exit_code } => {
            assert_eq!(pty_id, "s1");
            assert!(exit_code.is_none());
        }
        _ => panic!("expected a final exit event"),
    }
}

#[test]
fn reader_stops_at_the_first_error() {
    let outcomes = vec![
        ReadOutcome::Data(b"x".to_vec()),
        ReadOutcome::Failed(String::from("boom")),
        ReadOutcome::Data(b"y".to_vec()),
    ];
    let events = run_reader("s2", &outcomes);
    assert_eq!(events.len(), 2);
    match &events[1] {
        PtyEvent::Error { message, .. } => assert_eq!(message, "boom"),
        _ => panic!("expected an error event"),
    }
}

#[test]
fn kill_is_idempotent_without_a_live_process() {
    // A pid far beyond the kernel's pid range: every signal fails, the
    // flags are cleared all the same.
    let mut handle = PtyHandle::new("dead");
    handle.mark_spawned(0x7ffffff0);
    let first = handle.kill();
    assert!(first.is_some());
    assert!(!handle.running());
    assert!(!handle.suspended());
    assert!(handle.pid().is_none());
    let second = handle.kill();
    assert!(second.is_none());
    assert!(!handle.running());
    assert!(!handle.suspended());
    assert!(handle.pid().is_none());
}

#[test]
fn resume_without_suspend_reports_false() {
    let mut handle = PtyHandle::new("idle");
    handle.mark_spawned(0x7ffffff0);
    let r = handle.resume();
    assert_eq!(r.ok(), Some(false));
    assert!(!handle.suspended());
}

#[test]
fn suspend_without_a_process_reports_false() {
    let mut handle = PtyHandle::new("never-spawned");
    let r = handle.suspend();
    assert_eq!(r.ok(), Some(false));
    assert!(!handle.suspended());
    let t = handle.toggle_suspend();
    assert_eq!(t.ok(), Some(false));
}

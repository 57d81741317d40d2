use rs_fast_mcp::mcp::types::JsonValue;
use rs_fast_mcp::server::tasks::{TaskMeta, TaskStatus, TaskTable};

#[test]
fn task_meta_new() {
    let m = TaskMeta::new(60);
    assert_eq!(m.ttl, 60);
    assert!(m.fn_key.is_none());
}

#[test]
fn submitted_task_is_pending_then_completes() {
    let mut table = TaskTable::new();
    let id = table.submit();
    assert_eq!(id.len(), 36);
    assert_eq!(&id[8..9], "-");
    assert!(matches!(table.get_status(&id), Some(TaskStatus::Pending)));
    table.start(&id);
    assert!(matches!(table.get_status(&id), Some(TaskStatus::Running)));
    table.finish(&id, Ok(JsonValue::Str("done".to_string())));
    match table.get_status(&id) {
        Some(TaskStatus::Completed(JsonValue::Str(s))) => assert_eq!(s, "done"),
        _ => panic!("expected completion"),
    }
}

#[test]
fn failed_task_keeps_message() {
    let mut table = TaskTable::new();
    let id = table.submit();
    table.finish(&id, Err("boom".to_string()));
    match table.get_status(&id) {
        Some(TaskStatus::Failed(e)) => assert_eq!(e, "boom"),
        _ => panic!("expected failure"),
    }
}

#[test]
fn evicted_task_is_forgotten_and_others_kept() {
    let mut table = TaskTable::new();
    let a = table.submit();
    let b = table.submit();
    assert_ne!(a, b);
    table.evict(&a);
    assert!(table.get_status(&a).is_none());
    assert!(matches!(table.get_status(&b), Some(TaskStatus::Pending)));
    assert!(table.get_status("unknown").is_none());
}

use rusty_req::concurrency::batch_timeout_ms;
use rusty_req::record::{meta_from_parts, outcome_record};
use rusty_req::{BatchCollector, ConcurrencyMode, ErrorKind, ResultRecord, SendOutcome};

fn ok_record(tag: &str) -> ResultRecord {
    let meta = meta_from_parts("s", "e", 1000, tag);
    outcome_record(SendOutcome::Response { status: 200, headers: vec![], content: tag.to_string() }, 30000, meta)
}

fn tags(n: usize) -> Vec<String> {
    (0..n).map(|i| format!("r{}", i)).collect()
}

fn is_global_timeout(r: &ResultRecord, tag: &str) -> bool {
    r.http_status == 0 && r.exception.as_ref().map(|e| e.kind) == Some(ErrorKind::GlobalTimeout) && r.meta.tag == tag
}

#[test]
fn select_all_keeps_fast_and_times_out_slow() {
    let mut c = BatchCollector::new(tags(2), 1000);
    c.record(1, ok_record("r1"));
    let out = c.finish(ConcurrencyMode::SelectAll);
    assert_eq!(out.len(), 2);
    assert!(is_global_timeout(&out[0], "r0"));
    assert_eq!(out[1], ok_record("r1"));
    assert_eq!(out[0].exception.as_ref().unwrap().message, "Global timeout after 1.00 seconds");
}

#[test]
fn join_all_over_budget_times_out_everything() {
    let mut c = BatchCollector::new(tags(3), 2000);
    c.record(0, ok_record("r0"));
    c.record(2, ok_record("r2"));
    assert!(!c.is_complete());
    let out = c.finish(ConcurrencyMode::JoinAll);
    assert_eq!(out.len(), 3);
    for (i, r) in out.iter().enumerate() {
        assert!(is_global_timeout(r, &format!("r{}", i)));
    }
}

#[test]
fn join_all_within_budget_keeps_results() {
    let mut c = BatchCollector::new(tags(2), 2000);
    c.record(1, ok_record("r1"));
    let failed = outcome_record(
        SendOutcome::Failed { detail: "refused".to_string() },
        30000,
        meta_from_parts("s", "e", 0, "r0"),
    );
    c.record(0, failed.clone());
    assert!(c.is_complete());
    let out = c.finish(ConcurrencyMode::JoinAll);
    assert_eq!(out, vec![failed, ok_record("r1")]);
}

#[test]
fn batch_sizes_are_kept_in_both_modes() {
    for n in [0usize, 1, 5] {
        for mode in [ConcurrencyMode::SelectAll, ConcurrencyMode::JoinAll] {
            let c = BatchCollector::new(tags(n), 100);
            assert_eq!(c.len(), n);
            assert_eq!(c.finish(mode).len(), n);
        }
    }
}

#[test]
fn empty_batch_is_complete() {
    let c = BatchCollector::new(vec![], 100);
    assert!(c.is_complete());
    assert_eq!(c.finish(ConcurrencyMode::JoinAll), vec![]);
}

#[test]
fn concurrency_mode_names() {
    assert_eq!(ConcurrencyMode::new(), ConcurrencyMode::SelectAll);
    assert_eq!(ConcurrencyMode::SelectAll.__str__(), "SELECT_ALL");
    assert_eq!(ConcurrencyMode::JoinAll.__str__(), "JOIN_ALL");
    assert_eq!(ConcurrencyMode::JoinAll.__repr__(), "ConcurrencyMode.JOIN_ALL");
}

#[test]
fn batch_deadline_defaults_to_thirty_seconds() {
    assert_eq!(batch_timeout_ms(None), 30000);
    assert_eq!(batch_timeout_ms(Some(1500)), 1500);
}

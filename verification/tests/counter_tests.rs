use easeprobe::counter::StatusCounter;

#[test]
fn counter_starts_empty() {
    let c = StatusCounter::new(3);
    assert_eq!(c.status_history.len(), 0);
    assert_eq!(c.max_len, 3);
    assert!(c.current_status);
    assert_eq!(c.status_count, 0);
}

#[test]
fn counter_run_is_capped_at_max_len() {
    // After a flip, a run of five equal observations counts min(5, 3).
    let mut c = StatusCounter::new(3);
    for _ in 0..5 {
        c.append_status(false, "down".to_string());
    }
    assert_eq!(c.status_count, 3);
    assert!(c.status_history.len() <= 3);
    assert_eq!(c.status_history.len(), 3);
    assert!(!c.current_status);
}

#[test]
fn counter_resets_run_on_flip() {
    let mut c = StatusCounter::new(10);
    c.append_status(false, "a".to_string());
    c.append_status(false, "b".to_string());
    assert_eq!(c.status_count, 2);
    c.append_status(true, "c".to_string());
    assert_eq!(c.status_count, 1);
    assert!(c.current_status);
    assert_eq!(c.status_history.len(), 3);
}

#[test]
fn counter_keeps_newest_entries() {
    let mut c = StatusCounter::new(2);
    c.append_status(true, "one".to_string());
    c.append_status(true, "two".to_string());
    c.append_status(true, "three".to_string());
    assert_eq!(c.status_history.len(), 2);
    assert_eq!(c.status_history[0].message, "two");
    assert_eq!(c.status_history[1].message, "three");
}

#[test]
fn counter_set_max_len_truncates_oldest() {
    let mut c = StatusCounter::new(5);
    for i in 0..5 {
        c.append_status(true, format!("m{}", i));
    }
    c.set_max_len(2);
    assert_eq!(c.status_history.len(), 2);
    assert_eq!(c.status_history[0].message, "m3");
    assert_eq!(c.status_history[1].message, "m4");
    assert_eq!(c.max_len, 2);
}

#[test]
fn counter_set_max_len_caps_the_run_length() {
    let mut c = StatusCounter::new(5);
    c.append_status(false, "a".to_string());
    c.append_status(false, "b".to_string());
    assert_eq!(c.status_count, 2);
    c.set_max_len(1);
    assert_eq!(c.status_count, 1);
    assert_eq!(c.status_history.len(), 1);
}

#[test]
fn counter_with_zero_capacity_counts_nothing() {
    let mut c = StatusCounter::new(0);
    c.append_status(false, "x".to_string());
    assert_eq!(c.status_count, 0);
    assert_eq!(c.status_history.len(), 0);
}

#[test]
fn counter_clone_matches_original() {
    let mut c = StatusCounter::new(4);
    c.append_status(true, "ok".to_string());
    c.append_status(false, "bad".to_string());
    let d = c.clone();
    assert_eq!(d.status_count, c.status_count);
    assert_eq!(d.current_status, c.current_status);
    assert_eq!(d.status_history.len(), c.status_history.len());
    assert_eq!(d.status_history[1].message, "bad");
}

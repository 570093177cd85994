use numerics_rs::root_finding::ConvergenceLog;

#[test]
fn test_add_and_display_log() {
    let mut log = ConvergenceLog::new();

    // Add some example iterations for testing
    log.add_entry(0, vec![1.0, 2.0, 1.5], vec![2.0, -1.0, 0.5]);
    log.add_entry(1, vec![1.5, 2.0], vec![0.5, -0.25]);

    // Assertions to verify the log contents
    assert_eq!(log.get_entries().len(), 2);
    assert_eq!(log.get_entries()[0].x.len(), 3);
    assert_eq!(log.get_entries()[0].x[2], 1.5);
    assert_eq!(log.get_entries()[1].fx[1], -0.25);
}

#[test]
fn test_reset_log() {
    let mut log = ConvergenceLog::new();
    log.add_entry(0, vec![1.0, 2.0, 1.5], vec![2.0, -1.0, 0.5]);

    log.reset(); // Clear the log
    assert!(log.get_entries().is_empty());
}

#[test]
fn new_log_is_empty() {
    let log: ConvergenceLog<f64> = ConvergenceLog::new();
    assert!(log.get_entries().is_empty());
    let log: ConvergenceLog<f64> = ConvergenceLog::default();
    assert!(log.get_entries().is_empty());
}

#[test]
fn entries_keep_their_order_and_content() {
    let mut log = ConvergenceLog::new();
    log.add_entry(7, vec![1.0], vec![-1.0]);
    log.add_entry(8, vec![2.0, 3.0], vec![-2.0, -3.0]);
    log.add_entry(9, vec![], vec![]);
    let entries = log.get_entries();
    assert_eq!(entries.len(), 3);
    assert_eq!(entries[0].iteration, 7);
    assert_eq!(entries[0].x, vec![1.0]);
    assert_eq!(entries[0].fx, vec![-1.0]);
    assert_eq!(entries[1].iteration, 8);
    assert_eq!(entries[1].x, vec![2.0, 3.0]);
    assert_eq!(entries[1].fx, vec![-2.0, -3.0]);
    assert_eq!(entries[2].iteration, 9);
    assert!(entries[2].x.is_empty());
    assert!(entries[2].fx.is_empty());
    for entry in entries {
        assert_eq!(entry.x.len(), entry.fx.len());
    }
}

#[test]
fn reset_empties_whatever_was_logged() {
    let mut log = ConvergenceLog::new();
    log.reset();
    assert!(log.get_entries().is_empty());
    for round in 0..10usize {
        log.add_entry(round, vec![1.0; round], vec![2.0; round]);
    }
    assert_eq!(log.get_entries().len(), 10);
    log.reset();
    assert!(log.get_entries().is_empty());
    log.add_entry(1, vec![0.5], vec![0.25]);
    assert_eq!(log.get_entries().len(), 1);
    assert_eq!(log.get_entries()[0].iteration, 1);
}

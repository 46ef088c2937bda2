use easeprobe::global::Retry;
use easeprobe::retry::{initial_error_text, RetryDriver};

#[test]
fn retry_driver_counts_attempts_and_pauses_between_them() {
    let retry = Retry {
        times: 3,
        interval: 5000,
    };
    let mut d = RetryDriver::new("log", "n1", "Notification", retry);
    assert!(d.should_attempt());
    let (warn, pause) = d.record_failure("boom");
    assert_eq!(
        warn,
        "[log / n1 / Notification] Retried to send 1/3 - boom"
    );
    assert_eq!(pause, Some(5000));
    assert!(d.should_attempt());
    let (warn2, pause2) = d.record_failure("boom");
    assert_eq!(
        warn2,
        "[log / n1 / Notification] Retried to send 2/3 - boom"
    );
    assert_eq!(pause2, Some(5000));
    // No pause after the last failure.
    let (_, pause3) = d.record_failure("boom");
    assert_eq!(pause3, None);
    assert!(!d.should_attempt());
}

#[test]
fn retry_driver_summarizes_the_final_error() {
    let retry = Retry {
        times: 3,
        interval: 100,
    };
    let d = RetryDriver::new("log", "n1", "SLA", retry);
    assert_eq!(
        d.final_error("boom"),
        "[log / n1 / SLA] failed after 3 retries - boom"
    );
}

#[test]
fn retry_driver_with_no_budget_never_attempts() {
    let retry = Retry {
        times: 0,
        interval: 100,
    };
    let d = RetryDriver::new("log", "n1", "Notification", retry);
    assert!(!d.should_attempt());
    assert_eq!(initial_error_text(), "No error occurred");
    assert_eq!(
        d.final_error(&initial_error_text()),
        "[log / n1 / Notification] failed after 0 retries - No error occurred"
    );
}

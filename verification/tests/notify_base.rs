use easeprobe::global::NotifierSetting;
use easeprobe::notifier::{new_dummy_notify, DefaultNotifier, LogConfig, Notifier, NotifyOutcome};
use easeprobe::report::Format;
use easeprobe::result::ProbeResult;
use easeprobe::status::Status;

#[test]
fn test_base() {}

fn down_result() -> ProbeResult {
    let mut r = ProbeResult::default();
    r.name = "p1".to_string();
    r.endpoint = "https://example.com".to_string();
    r.pre_status = Status::Up;
    r.status = Status::Down;
    r.message = "Error (http): boom".to_string();
    r
}

#[test]
fn live_notifier_renders_a_send() {
    let n = new_dummy_notify("email", "n1", vec!["A".to_string()]);
    match n.notify(&down_result()) {
        NotifyOutcome::Send { title, body } => {
            assert_eq!(title, "p1 Failure");
            assert!(body.starts_with("[p1 Failure] ❌\n"));
        }
        NotifyOutcome::Dry { .. } => panic!("a live notifier must send"),
    }
}

#[test]
fn dry_notifier_renders_only_its_log_line() {
    let mut n = new_dummy_notify("email", "n1", vec!["A".to_string()]);
    n.dry = true;
    match n.notify(&down_result()) {
        NotifyOutcome::Dry { line } => {
            assert!(line.starts_with("[email / n1 / dry_notify] - "));
        }
        NotifyOutcome::Send { .. } => panic!("a dry notifier must not send"),
    }
}

#[test]
fn notifier_config_normalizes_and_binds_the_default_channel() {
    let mut n = new_dummy_notify("email", "n1", vec![]);
    assert!(n.config(&NotifierSetting::default()).is_ok());
    assert_eq!(n.channels(), vec!["__EaseProbe_Channel__".to_string()]);
    assert_eq!(n.timeout, 30000);
    assert_eq!(n.retry.times, 3);
    assert_eq!(n.retry.interval, 5000);
}

#[test]
fn notifier_stat_report() {
    let n = new_dummy_notify("email", "n1", vec!["A".to_string()]);
    match n.notify_stat() {
        NotifyOutcome::Send { title, body } => {
            assert_eq!(title, "Overall SLA Report");
            assert_eq!(body, "[Overall SLA Report]\n\n");
        }
        NotifyOutcome::Dry { .. } => panic!("a live notifier must send"),
    }
    assert!(n
        .dry_notify_stat()
        .starts_with("[email / n1 / dry_notify_stat] - "));
}

#[test]
fn log_notifier_binds_its_kind_and_delegates() {
    let mut lc = LogConfig {
        default: DefaultNotifier {
            kind: String::new(),
            format: Format::Text,
            name: "file".to_string(),
            channels: vec![],
            dry: false,
            timeout: 0,
            retry: easeprobe::global::Retry::default(),
        },
        file: "alerts.log".to_string(),
        host: String::new(),
        network: String::new(),
    };
    assert!(lc.config(&NotifierSetting::default()).is_ok());
    assert_eq!(lc.kind(), "log");
    assert_eq!(lc.channels(), vec!["__EaseProbe_Channel__".to_string()]);
    match lc.notify(&down_result()) {
        NotifyOutcome::Send { title, .. } => assert_eq!(title, "p1 Failure"),
        NotifyOutcome::Dry { .. } => panic!("a live notifier must send"),
    }
}

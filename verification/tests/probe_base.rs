use easeprobe::engine::{config_notifiers, config_probers, probe_once};
use easeprobe::conf::Settings;
use easeprobe::http::HttpProber;
use easeprobe::global::ProbeSettings;
use easeprobe::notifier::new_dummy_notify;
use easeprobe::prober::{default_interval, default_timeout, new_dummy_prober, Prober};
use easeprobe::status::Status;

#[test]
fn base_test_base() {}

#[test]
fn probe_defaults() {
    assert_eq!(default_timeout(), 30000);
    assert_eq!(default_interval(), 60000);
}

#[test]
fn log_title_shapes() {
    let p = new_dummy_prober("http", "", "p1", vec![]);
    assert_eq!(p.log_title(), "[http /  / p1]");
    let q = new_dummy_prober("http", "web", "p1", vec![]);
    assert_eq!(q.log_title(), "[http / p1]");
}

#[test]
fn dummy_probe_reports_success() {
    let mut p = new_dummy_prober("http", "XY", "p1", vec!["A".to_string()]);
    p.config(&ProbeSettings::default()).unwrap();
    let r = p.probe();
    assert_eq!(r.pre_status, Status::Init);
    assert_eq!(r.status, Status::Up);
    assert_eq!(r.message, "Success (http/XY): Dummy probe succeeded");
    assert_eq!(r.stat.total, 1);
    assert_eq!(r.stat.status.up, 1);
}

#[test]
fn record_probe_builds_the_message_without_a_tag() {
    let mut p = new_dummy_prober("http", "", "p1", vec!["A".to_string()]);
    p.config(&ProbeSettings::default()).unwrap();
    let r = p.record_probe(1000, 7, false, "boom".to_string());
    assert_eq!(r.message, "Error (http): boom");
    assert_eq!(r.start_time, 1000);
    assert_eq!(r.start_timestamp, 1000);
    assert_eq!(r.round_trip_time, 7);
    assert_eq!(r.latest_downtime, 1000);
}

#[test]
fn prober_config_binds_the_default_channel() {
    let mut p = new_dummy_prober("http", "", "p1", vec![]);
    p.config(&ProbeSettings::default()).unwrap();
    assert_eq!(p.channels(), vec!["__EaseProbe_Channel__".to_string()]);
    assert_eq!(p.result.status, Status::Init);
    assert_eq!(p.result.pre_status, Status::Init);
}

#[test]
fn probe_once_hands_back_the_result_and_channels() {
    let mut p = new_dummy_prober("http", "", "p1", vec!["A".to_string(), "B".to_string()]);
    p.config(&ProbeSettings::default()).unwrap();
    let (r, channels) = probe_once(&mut p);
    assert_eq!(r.status, Status::Up);
    assert_eq!(channels, vec!["A".to_string(), "B".to_string()]);
}

#[test]
fn config_probers_keeps_every_usable_prober() {
    let mut probers = vec![
        new_dummy_prober("http", "", "p1", vec!["A".to_string()]),
        new_dummy_prober("http", "", "p2", vec![]),
    ];
    let (errors, excluded) = config_probers(&mut probers, &Settings::default());
    assert_eq!(errors.len(), 0);
    assert_eq!(excluded.len(), 0);
    assert_eq!(probers.len(), 2);
    assert_eq!(
        probers[1].channels(),
        vec!["__EaseProbe_Channel__".to_string()]
    );
}

#[test]
fn config_probers_excludes_an_unusable_prober() {
    let mut probers = vec![
        HttpProber::new("good", "https://example.com", "GET", vec![], None, 1000, 5000),
        HttpProber::new("bad", "not a url", "GET", vec![], None, 1000, 5000),
    ];
    let (errors, excluded) = config_probers(&mut probers, &Settings::default());
    assert_eq!(probers.len(), 1);
    assert_eq!(probers[0].name(), "good");
    assert_eq!(errors.len(), 1);
    assert!(errors[0].starts_with("Bad Probe Configuration for prober http bad: "));
    // The excluded prober carries the Bad Configuration record.
    assert_eq!(excluded.len(), 1);
    assert_eq!(excluded[0].name(), "bad");
    assert_eq!(excluded[0].default_prober.result.status, Status::Bad);
    assert!(excluded[0]
        .default_prober
        .result
        .message
        .starts_with("Bad Configuration: "));
}

#[test]
fn config_notifiers_keeps_every_usable_notifier() {
    let mut notifiers = vec![new_dummy_notify("email", "n1", vec![])];
    let (errors, excluded) = config_notifiers(&mut notifiers, &Settings::default());
    assert_eq!(errors.len(), 0);
    assert_eq!(excluded.len(), 0);
    assert_eq!(notifiers.len(), 1);
}

#[test]
fn prober_config_normalizes_timing() {
    // An unset timeout and interval fall back to the global defaults.
    let mut p = new_dummy_prober("http", "", "p1", vec!["A".to_string()]);
    p.timeout = 0;
    p.interval = 0;
    p.config(&ProbeSettings::default()).unwrap();
    assert_eq!(p.timeout, 30000);
    assert_eq!(p.interval, 60000);
    // A set local value wins over the global one.
    let mut q = new_dummy_prober("http", "", "p2", vec!["A".to_string()]);
    let mut gs = ProbeSettings::default();
    gs.timeout = 2000;
    q.config(&gs).unwrap();
    assert_eq!(q.timeout, 1000);
    assert_eq!(q.interval, 5000);
}

use easeprobe::global::{
    normalize, normalize_millis, IntervalStrategy, NotificationStrategySettings, NotifierSetting,
    ProbeSettings, Retry, StatusChangeThresholdSettings,
};
use easeprobe::status::Status;

#[test]
fn status_titles_tags_and_emoji() {
    assert_eq!(Status::Init.title(), "Initialization");
    assert_eq!(Status::Up.title(), "Success");
    assert_eq!(Status::Down.title(), "Error");
    assert_eq!(Status::Unknown.title(), "Unknown");
    assert_eq!(Status::Bad.title(), "Bad");
    assert_eq!(Status::Up.to_string(), "up");
    assert_eq!(Status::Down.to_string(), "down");
    assert_eq!(Status::Up.emoji(), "✅");
    assert_eq!(Status::Down.emoji(), "❌");
    assert_eq!(Status::default(), Status::Unknown);
}

#[test]
fn status_from_string_ignores_case() {
    // Would fail if the case-folding helper handed its argument back.
    assert_eq!(Status::from_string("UP"), Status::Up);
    assert_eq!(Status::from_string("Init"), Status::Init);
    assert_eq!(Status::from_string("down"), Status::Down);
    assert_eq!(Status::from_string("BAD"), Status::Bad);
    assert_eq!(Status::from_string("bogus"), Status::Unknown);
}

#[test]
fn normalize_prefers_local_then_global_then_default() {
    assert_eq!(normalize(0, 0, 0, 5), 5);
    assert_eq!(normalize(3, 0, 0, 5), 3);
    assert_eq!(normalize(3, 7, 0, 5), 7);
    assert_eq!(normalize(-1, -2, 0, 9), 9);
    assert_eq!(normalize_millis(0, 0, 0, 30000), 30000);
    assert_eq!(normalize_millis(2000, 0, 0, 30000), 2000);
    assert_eq!(normalize_millis(2000, 700, 0, 30000), 700);
}

#[test]
fn probe_settings_normalize_defaults() {
    let gs = ProbeSettings::default();
    assert_eq!(gs.normalize_timeout(0), 30000);
    assert_eq!(gs.normalize_interval(0), 60000);
    let t = gs.normalize_threshold(StatusChangeThresholdSettings {
        failure: 0,
        success: 0,
    });
    assert_eq!(t.failure, 1);
    assert_eq!(t.success, 1);
    let n = gs.normalize_notification_strategy(NotificationStrategySettings {
        strategy: IntervalStrategy::Unknown,
        factor: 0,
        max_times: 0,
    });
    assert_eq!(n.strategy, IntervalStrategy::Regular);
    assert_eq!(n.factor, 1);
    assert_eq!(n.max_times, 1);
}

#[test]
fn probe_settings_keep_local_overrides() {
    let mut gs = ProbeSettings::default();
    gs.timeout = 1000;
    gs.interval = 2000;
    assert_eq!(gs.normalize_timeout(500), 500);
    assert_eq!(gs.normalize_interval(0), 2000);
    let t = gs.normalize_threshold(StatusChangeThresholdSettings {
        failure: 3,
        success: 2,
    });
    assert_eq!(t.failure, 3);
    assert_eq!(t.success, 2);
}

#[test]
fn notifier_setting_normalizes_retry() {
    let gs = NotifierSetting::default();
    let r = gs.normalize_retry(&Retry {
        times: 0,
        interval: 0,
    });
    assert_eq!(r.times, 3);
    assert_eq!(r.interval, 5000);
    let r2 = gs.normalize_retry(&Retry {
        times: 7,
        interval: 100,
    });
    assert_eq!(r2.times, 7);
    assert_eq!(r2.interval, 100);
    assert_eq!(gs.normalize_timeout(0), 30000);
}

#[test]
fn interval_strategy_tags() {
    assert_eq!(IntervalStrategy::Regular.to_string(), "regular");
    assert_eq!(IntervalStrategy::Exponential.to_string(), "exponent");
    assert_eq!(
        IntervalStrategy::from_str("EXPONENT"),
        Ok(IntervalStrategy::Exponential)
    );
    assert_eq!(
        IntervalStrategy::from_str("increment"),
        Ok(IntervalStrategy::Increment)
    );
    assert_eq!(
        IntervalStrategy::from_str("nope"),
        Ok(IntervalStrategy::Unknown)
    );
    assert_eq!(IntervalStrategy::default(), IntervalStrategy::Regular);
}

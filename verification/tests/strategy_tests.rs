use easeprobe::global::{IntervalStrategy, NotificationStrategySettings};
use easeprobe::strategy::NotificationStrategyData;

#[test]
fn default_policy_notifies_once_per_span() {
    let mut d = NotificationStrategyData::default();
    assert!(d.need_to_send_notification());
    assert!(!d.need_to_send_notification());
    assert!(!d.need_to_send_notification());
}

#[test]
fn reset_enables_the_next_notification() {
    let mut d = NotificationStrategyData::default();
    assert!(d.need_to_send_notification());
    assert!(!d.need_to_send_notification());
    d.reset();
    assert!(d.need_to_send_notification());
}

#[test]
fn regular_policy_notifies_every_down_up_to_max_times() {
    let settings = NotificationStrategySettings {
        strategy: IntervalStrategy::Regular,
        factor: 1,
        max_times: 3,
    };
    let mut d = NotificationStrategyData::new(&settings);
    assert!(d.need_to_send_notification());
    assert!(d.need_to_send_notification());
    assert!(d.need_to_send_notification());
    assert!(!d.need_to_send_notification());
}

#[test]
fn exponential_policy_doubles_the_spacing() {
    let settings = NotificationStrategySettings {
        strategy: IntervalStrategy::Exponential,
        factor: 1,
        max_times: 3,
    };
    let mut d = NotificationStrategyData::new(&settings);
    let observed: Vec<bool> = (0..5).map(|_| d.need_to_send_notification()).collect();
    assert_eq!(observed, vec![true, true, false, true, false]);
}

#[test]
fn increment_policy_grows_the_spacing_linearly() {
    let settings = NotificationStrategySettings {
        strategy: IntervalStrategy::Increment,
        factor: 2,
        max_times: 3,
    };
    let mut d = NotificationStrategyData::new(&settings);
    let observed: Vec<bool> = (0..8).map(|_| d.need_to_send_notification()).collect();
    // Notifications fire at the 1st, 3rd and 7th Down observation.
    assert_eq!(
        observed,
        vec![true, false, true, false, false, false, true, false]
    );
}

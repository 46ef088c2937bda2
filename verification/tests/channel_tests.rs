use easeprobe::channel::{decide, Channel, HandleDecision, CHANNEL_CAPACITY};
use easeprobe::global::ProbeSettings;
use easeprobe::notifier::{new_dummy_notify, DefaultNotifier, Notifier};
use easeprobe::prober::{new_dummy_prober, DefaultProber, DummyProbeBehavior, Prober};
use easeprobe::result::ProbeResult;
use easeprobe::status::Status;

type TestChannel = Channel<DefaultProber<DummyProbeBehavior>, DefaultNotifier>;

#[test]
fn test_basic() {
    let mut ch: TestChannel = Channel::new("test");

    let probers = vec![
        new_dummy_prober(
            "http",
            "XY",
            "dummy-XY",
            vec!["X".to_string(), "Y".to_string()],
        ),
        new_dummy_prober("http", "X", "dummy-X", vec!["X".to_string()]),
    ];
    ch.add_probers(probers);
    assert_eq!(ch.probers.len(), 2);
    assert_eq!(ch.get_prober("dummy-XY").unwrap().kind(), "http");

    let notifiers = vec![
        new_dummy_notify("email", "dummy-XY", vec!["X".to_string(), "Y".to_string()]),
        new_dummy_notify("email", "dummy-X", vec!["X".to_string()]),
    ];
    ch.add_notifiers(notifiers);
    assert_eq!(ch.notifiers.len(), 2);
    assert_eq!(ch.get_notifier("dummy-XY").unwrap().kind(), "email");

    // A duplicated notifier name is ignored.
    let n = new_dummy_notify("discord", "dummy-X", vec!["X".to_string()]);
    ch.add_notifier(n);
    assert_eq!(ch.get_notifier("dummy-X").unwrap().kind(), "email");

    // A duplicated prober name is ignored.
    let p = new_dummy_prober("ssh", "XY", "dummy-XY", vec!["X".to_string()]);
    ch.add_prober(p);
    assert_eq!(ch.get_prober("dummy-XY").unwrap().kind(), "http");
}

#[test]
fn duplicate_prober_is_rejected_with_one_warning() {
    let mut ch: TestChannel = Channel::new("X");
    let w1 = ch.add_prober(new_dummy_prober("http", "", "p1", vec!["X".to_string()]));
    assert!(w1.is_none());
    let w2 = ch.add_prober(new_dummy_prober("http", "", "p1", vec!["X".to_string()]));
    assert_eq!(
        w2,
        Some("Prober [http - p1] name is duplicated, ignored!".to_string())
    );
    assert_eq!(ch.probers.len(), 1);
    assert!(ch.get_prober("p1").is_some());
}

#[test]
fn send_respects_capacity_and_stop() {
    let mut ch: TestChannel = Channel::new("q");
    for _ in 0..CHANNEL_CAPACITY {
        assert!(ch.send(ProbeResult::default()));
    }
    // The queue is full: the result is dropped.
    assert!(!ch.send(ProbeResult::default()));
    assert_eq!(ch.queue.len(), CHANNEL_CAPACITY);

    let mut stopped: TestChannel = Channel::new("s");
    stopped.stop();
    assert!(!stopped.send(ProbeResult::default()));
}

#[test]
fn process_next_on_an_empty_queue_yields_nothing() {
    let mut ch: TestChannel = Channel::new("e");
    assert!(ch.process_next(false).is_none());
}

fn prober_on(channels: Vec<String>, name: &str) -> DefaultProber<DummyProbeBehavior> {
    let mut p = new_dummy_prober("http", "", name, channels);
    p.config(&ProbeSettings::default()).unwrap();
    p
}

#[test]
fn first_up_is_silent() {
    let mut ch: TestChannel = Channel::new("A");
    ch.add_notifier(new_dummy_notify("email", "n1", vec!["A".to_string()]));
    let mut p = prober_on(vec!["A".to_string()], "p1");
    assert_eq!(p.result.status, Status::Init);

    let mut r1 = p.record_probe(1000, 5, true, "fine".to_string());
    assert_eq!(r1.pre_status, Status::Init);
    assert_eq!(r1.status, Status::Up);
    let tasks = ch.handle_result(&mut r1, false);
    assert_eq!(tasks.len(), 0);

    let mut r2 = p.record_probe(2000, 5, true, "fine".to_string());
    assert_eq!(r2.pre_status, Status::Up);
    assert_eq!(r2.status, Status::Up);
    let tasks2 = ch.handle_result(&mut r2, false);
    assert_eq!(tasks2.len(), 0);
}

#[test]
fn first_failure_notifies_with_a_failure_title() {
    let mut ch: TestChannel = Channel::new("A");
    ch.add_notifier(new_dummy_notify("email", "n1", vec!["A".to_string()]));
    let mut p = prober_on(vec!["A".to_string()], "p1");

    let mut r1 = p.record_probe(1000, 5, true, "fine".to_string());
    assert_eq!(ch.handle_result(&mut r1, false).len(), 0);

    let mut r2 = p.record_probe(2000, 5, false, "boom".to_string());
    assert_eq!(r2.pre_status, Status::Up);
    assert_eq!(r2.status, Status::Down);
    let tasks = ch.handle_result(&mut r2, false);
    assert_eq!(tasks.len(), 1);
    assert_eq!(tasks[0].name, "n1");
    assert_eq!(r2.title(), "p1 Failure");
}

#[test]
fn recovery_notifies_once_with_a_recovery_title() {
    let mut ch: TestChannel = Channel::new("A");
    ch.add_notifier(new_dummy_notify("email", "n1", vec!["A".to_string()]));
    let mut p = prober_on(vec!["A".to_string()], "p1");
    p.threshold.success = 2;

    // Init -> Up, silent.
    let mut r = p.record_probe(1000, 5, true, "fine".to_string());
    assert_eq!(ch.handle_result(&mut r, false).len(), 0);
    // Up -> Down, one failure notification; the strategy state is written
    // back to the shared prober.
    let mut r = p.record_probe(2000, 5, false, "boom".to_string());
    assert_eq!(ch.handle_result(&mut r, false).len(), 1);
    p.result.stat.notification_strategy_data = r.stat.notification_strategy_data;
    // First success: the status stays Down and the strategy gates the alert.
    let mut r = p.record_probe(3000, 5, true, "fine".to_string());
    assert_eq!(r.status, Status::Down);
    assert_eq!(ch.handle_result(&mut r, false).len(), 0);
    p.result.stat.notification_strategy_data = r.stat.notification_strategy_data;
    // Second success: recovery, exactly one notification.
    let mut r = p.record_probe(4000, 5, true, "fine".to_string());
    assert_eq!(r.pre_status, Status::Down);
    assert_eq!(r.status, Status::Up);
    assert!(r.recovery_time > 0);
    let tasks = ch.handle_result(&mut r, false);
    assert_eq!(tasks.len(), 1);
    assert!(r.title().starts_with("p1 Recovery -"));
}

#[test]
fn dry_run_produces_only_log_lines() {
    let mut ch: TestChannel = Channel::new("A");
    ch.add_notifier(new_dummy_notify("email", "n1", vec!["A".to_string()]));
    let mut p = prober_on(vec!["A".to_string()], "p1");

    let mut r = p.record_probe(1000, 5, false, "boom".to_string());
    assert_eq!(r.status, Status::Down);
    let tasks = ch.handle_result(&mut r, true);
    assert_eq!(tasks.len(), 1);
    assert!(tasks[0].dry);
    let n = ch.get_notifier(&tasks[0].name).unwrap();
    let line = n.dry_notify(&r);
    assert!(line.starts_with("[email / n1 / dry_notify] - "));
}

#[test]
fn decide_implements_the_silence_rules() {
    let mut r = ProbeResult::default();
    r.pre_status = Status::Init;
    r.status = Status::Up;
    assert_eq!(decide(&mut r), HandleDecision::SilentFirstSuccess);

    r.pre_status = Status::Up;
    r.status = Status::Up;
    assert_eq!(decide(&mut r), HandleDecision::SilentNoChange);

    r.pre_status = Status::Init;
    r.status = Status::Init;
    assert_eq!(decide(&mut r), HandleDecision::SilentNoChange);

    r.pre_status = Status::Up;
    r.status = Status::Down;
    assert_eq!(
        decide(&mut r),
        HandleDecision::Dispatch {
            status_changed: true
        }
    );

    // A second Down under the default policy is gated.
    r.pre_status = Status::Down;
    r.status = Status::Down;
    assert_eq!(decide(&mut r), HandleDecision::SilentStrategyGated);
}

#[test]
fn queued_results_are_evaluated_in_order() {
    let mut ch: TestChannel = Channel::new("A");
    ch.add_notifier(new_dummy_notify("email", "n1", vec!["A".to_string()]));
    let mut p = prober_on(vec!["A".to_string()], "p1");

    let r1 = p.record_probe(1000, 5, true, "fine".to_string());
    let r2 = p.record_probe(2000, 5, false, "boom".to_string());
    assert!(ch.send(r1));
    assert!(ch.send(r2));

    let (first, tasks1) = ch.process_next(false).unwrap();
    assert_eq!(first.status, Status::Up);
    assert_eq!(tasks1.len(), 0);
    let (second, tasks2) = ch.process_next(false).unwrap();
    assert_eq!(second.status, Status::Down);
    assert_eq!(tasks2.len(), 1);
    assert!(ch.process_next(false).is_none());
}

use easeprobe::channel::Channel;
use easeprobe::manager::Manager;
use easeprobe::notifier::{new_dummy_notify, DefaultNotifier, Notifier};
use easeprobe::prober::{new_dummy_prober, DefaultProber, DummyProbeBehavior, Prober};
use easeprobe::global::ProbeSettings;
use easeprobe::status::Status;

type TestManager = Manager<DefaultProber<DummyProbeBehavior>, DefaultNotifier>;
type TestChannel = Channel<DefaultProber<DummyProbeBehavior>, DefaultNotifier>;

fn channel_of<'a>(m: &'a TestManager, name: &str) -> &'a TestChannel {
    m.get_channel(name).unwrap()
}

#[test]
fn test_manager() {
    let mut m: TestManager = Manager::new();
    let name = "test";
    m.set_notifier(
        name,
        new_dummy_notify("email", "dummy", vec!["test".to_string()]),
    );

    let notifiers = m.get_notifiers(&vec!["nil-channel".to_string()]);
    assert_eq!(notifiers.len(), 0);

    let notifiers = m.get_notifiers(&vec!["test".to_string()]);
    assert_eq!(notifiers.len(), 1);
    assert_eq!(notifiers[0].name(), "dummy");

    m.set_prober(
        name,
        new_dummy_prober("http", "", "dummy", vec!["test".to_string()]),
    );

    let probers = vec![
        new_dummy_prober(
            "http",
            "XY",
            "dummy-XY",
            vec!["X".to_string(), "Y".to_string()],
        ),
        new_dummy_prober("http", "X", "dummy-X", vec!["X".to_string()]),
        new_dummy_prober("http", "Y", "dummy-Y", vec!["Y".to_string()]),
        new_dummy_prober(
            "http",
            "ALL",
            "dummy-ALL",
            vec!["X".to_string(), "Y".to_string(), "test".to_string()],
        ),
    ];
    m.set_probers(probers);

    let test = channel_of(&m, "test");
    assert_eq!("dummy-ALL", test.get_prober("dummy-ALL").unwrap().name());

    let x = channel_of(&m, "X");
    assert!(x.get_prober("dummy-X").is_some());
    assert!(x.get_prober("dummy-XY").is_some());
    assert_eq!("dummy-X", x.get_prober("dummy-X").unwrap().name());
    assert_eq!("dummy-XY", x.get_prober("dummy-XY").unwrap().name());
    assert_eq!("dummy-ALL", x.get_prober("dummy-ALL").unwrap().name());

    let y = channel_of(&m, "Y");
    assert!(y.get_prober("dummy-Y").is_some());
    assert!(y.get_prober("dummy-XY").is_some());
    assert_eq!("dummy-Y", y.get_prober("dummy-Y").unwrap().name());
    assert_eq!("dummy-XY", y.get_prober("dummy-XY").unwrap().name());
    assert_eq!("dummy-ALL", y.get_prober("dummy-ALL").unwrap().name());

    let notifiers = vec![
        new_dummy_notify("email", "dummy-XY", vec!["X".to_string(), "Y".to_string()]),
        new_dummy_notify("email", "dummy-X", vec!["X".to_string()]),
    ];
    m.set_notifiers(notifiers);

    let x = channel_of(&m, "X");
    assert!(x.get_notifier("dummy-X").is_some());
    assert!(x.get_notifier("dummy-XY").is_some());
    assert_eq!("dummy-X", x.get_notifier("dummy-X").unwrap().name());
    assert_eq!("dummy-XY", x.get_notifier("dummy-XY").unwrap().name());

    let y = channel_of(&m, "Y");
    assert!(y.get_notifier("dummy-X").is_none());
    assert!(y.get_notifier("dummy-XY").is_some());
    assert_eq!("dummy-XY", y.get_notifier("dummy-XY").unwrap().name());

    let chs = m.get_all_channels();
    assert_eq!(3, chs.len());
    assert!(m.get_channel("test").is_some());
    assert!(m.get_channel("X").is_some());
    assert!(m.get_channel("Y").is_some());
}

#[test]
fn set_channel_is_idempotent() {
    let mut m: TestManager = Manager::new();
    m.set_channel("a");
    m.set_channel("a");
    m.set_channel("a");
    assert_eq!(m.channels.len(), 1);
    assert_eq!(m.get_channel("a").unwrap().name, "a");
}

#[test]
fn set_probers_wires_each_channel_exactly_once() {
    let mut m: TestManager = Manager::new();
    let p = new_dummy_prober("http", "", "p1", vec!["X".to_string(), "Y".to_string()]);
    m.set_probers(vec![p]);
    for ch_name in ["X", "Y"] {
        let ch = channel_of(&m, ch_name);
        assert!(ch.get_prober("p1").is_some());
        let count = ch
            .probers
            .iter()
            .filter(|q| q.name() == "p1")
            .count();
        assert_eq!(count, 1);
    }
}

#[test]
fn get_notifiers_returns_each_distinct_notifier_once() {
    let mut m: TestManager = Manager::new();
    // The same notifier is registered on two channels.
    m.set_notifiers(vec![new_dummy_notify(
        "email",
        "n1",
        vec!["X".to_string(), "Y".to_string()],
    )]);
    m.set_notifier("Y", new_dummy_notify("email", "n2", vec!["Y".to_string()]));

    let ns = m.get_notifiers(&vec!["X".to_string(), "Y".to_string()]);
    assert_eq!(ns.len(), 2);
    let mut names: Vec<&str> = ns.iter().map(|n| n.name()).collect();
    names.sort();
    assert_eq!(names, vec!["n1", "n2"]);
}

#[test]
fn dry_notify_flag_is_process_wide() {
    let mut m: TestManager = Manager::new();
    assert!(!m.is_dry_notify());
    m.set_dry_notify(true);
    assert!(m.is_dry_notify());
    m.set_dry_notify(false);
    assert!(!m.is_dry_notify());
}

#[test]
fn all_done_stops_every_channel() {
    let mut m: TestManager = Manager::new();
    m.set_channel("a");
    m.set_channel("b");
    m.all_done();
    for ch in m.get_all_channels() {
        assert!(ch.stopped);
    }
}

#[test]
fn fan_out_reaches_only_the_channels_with_notifiers() {
    let mut m: TestManager = Manager::new();
    let mut p = new_dummy_prober(
        "http",
        "",
        "p1",
        vec!["X".to_string(), "Y".to_string(), "Z".to_string()],
    );
    p.config(&ProbeSettings::default()).unwrap();
    m.set_probers(vec![p.duplicate()]);
    m.set_notifier("Y", new_dummy_notify("email", "n1", vec!["Y".to_string()]));

    // One Down observation, published into every listed channel.
    let r = p.record_probe(1000, 5, false, "boom".to_string());
    assert_eq!(r.status, Status::Down);
    for ch_name in p.channels() {
        assert!(m.send_to_channel(&ch_name, r.clone()));
    }

    let mut total_tasks = 0;
    for ch_name in ["X", "Y", "Z"] {
        let i = m
            .channels
            .iter()
            .position(|c| c.name == ch_name)
            .unwrap();
        let mut ch = m.channels.remove(i);
        let (_, tasks) = ch.process_next(m.is_dry_notify()).unwrap();
        total_tasks += tasks.len();
        m.channels.insert(i, ch);
    }
    // Exactly one notifier send: the one on channel Y.
    assert_eq!(total_tasks, 1);
}

#[test]
fn global_dry_run_asks_only_for_log_lines() {
    let mut m: TestManager = Manager::new();
    m.set_dry_notify(true);
    let mut p = new_dummy_prober("http", "", "p1", vec!["A".to_string()]);
    p.config(&ProbeSettings::default()).unwrap();
    m.set_notifier("A", new_dummy_notify("email", "n1", vec!["A".to_string()]));

    let r = p.record_probe(1000, 5, false, "boom".to_string());
    assert!(m.send_to_channel("A", r));

    let mut ch = m.channels.remove(0);
    let (result, tasks) = ch.process_next(m.is_dry_notify()).unwrap();
    assert_eq!(tasks.len(), 1);
    assert!(tasks[0].dry);
    let n = ch.get_notifier(&tasks[0].name).unwrap();
    // Only the dry-run log line is produced; nothing is sent anywhere.
    let line = n.dry_notify(&result);
    assert!(line.starts_with("[email / n1 / dry_notify] - "));
    m.channels.insert(0, ch);
}

#[test]
fn send_to_a_missing_channel_is_dropped() {
    let mut m: TestManager = Manager::new();
    assert!(!m.send_to_channel("nowhere", easeprobe::result::ProbeResult::default()));
}

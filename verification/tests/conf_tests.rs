use easeprobe::conf::{
    default_name, default_time_format, default_time_zone, Conf, HTTPServer, SLAReport, Schedule,
    Settings,
};
use easeprobe::global::default_channel_name;
use easeprobe::notifier::Config;

#[test]
fn settings_defaults() {
    let s = Settings::default();
    assert_eq!(s.name, "EaseProbe");
    assert_eq!(s.timeformat, "%Y-%m-%d %H:%M:%S%Z");
    assert_eq!(s.timezone, "UTC");
    assert_eq!(s.probe.threshold.failure, 1);
    assert_eq!(s.probe.threshold.success, 1);
    assert_eq!(s.notify.retry.times, 3);
    assert_eq!(s.notify.retry.interval, 5000);
    assert_eq!(default_name(), "EaseProbe");
    assert_eq!(default_time_format(), "%Y-%m-%d %H:%M:%S%Z");
    assert_eq!(default_time_zone(), "UTC");
}

#[test]
fn report_and_server_defaults() {
    let sla = SLAReport::default();
    assert_eq!(sla.schedule, Schedule::NoSchedule);
    assert_eq!(sla.time, "00:00");
    assert_eq!(sla.backups, 5);
    assert!(sla.channels.is_empty());
    let http = HTTPServer::default();
    assert_eq!(http.port, "8181");
    assert_eq!(http.refresh, 0);
    assert_eq!(Schedule::default(), Schedule::NoSchedule);
}

#[test]
fn default_channel_name_is_fixed() {
    assert_eq!(default_channel_name(), "__EaseProbe_Channel__");
}

#[test]
fn conf_holds_the_document_tree() {
    let c = Conf {
        version: "v1".to_string(),
        http: vec![],
        notify: Config { log: vec![] },
        settings: Settings::default(),
    };
    assert_eq!(c.version, "v1");
    assert!(c.http.is_empty());
    assert!(c.notify.log.is_empty());
}

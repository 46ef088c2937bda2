//! The configuration document's tree: global settings with their defaults,
//! and the top-level document holding probers and notifiers.

use vstd::prelude::*;
use crate::global::{NotifierSetting, ProbeSettings};
use crate::http::HttpProber;
use crate::notifier::Config;

verus! {

/// The JSON schema of the configuration document; schema emission is not
/// wired up, so the text is empty.
pub fn json_schema() -> (r: Result<String, String>)
    ensures
        r matches Ok(s) && s@ == Seq::<char>::empty(),
{
    Ok(String::new())
}

/// How often the statistics report is sent.
#[derive(Clone, Copy, Debug, PartialEq, Eq, Structural)]
pub enum Schedule {
    NoSchedule,
    Minutely,
    Hourly,
    Daily,
    Weekly,
    Monthly,
}

impl Default for Schedule {
    fn default() -> (r: Self)
        ensures
            r == Schedule::NoSchedule,
    {
        Schedule::NoSchedule
    }
}

/// Settings of the statistics report.
#[derive(Debug)]
pub struct SLAReport {
    pub schedule: Schedule,
    pub time: String,
    pub data_file: String,
    pub backups: i32,
    pub channels: Vec<String>,
}

impl Default for SLAReport {
    fn default() -> (r: Self)
        ensures
            r.schedule == Schedule::NoSchedule,
            r.time@ == "00:00"@,
            r.data_file@ == Seq::<char>::empty(),
            r.backups == 5,
            r.channels@.len() == 0,
    {
        SLAReport {
            schedule: Schedule::NoSchedule,
            time: "00:00".to_owned(),
            data_file: String::new(),
            backups: 5,
            channels: Vec::new(),
        }
    }
}

/// Settings of the embedded status server.
#[derive(Debug)]
pub struct HTTPServer {
    pub ip: String,
    pub port: String,
    pub refresh: u64,
}

impl Default for HTTPServer {
    fn default() -> (r: Self)
        ensures
            r.ip@ == Seq::<char>::empty(),
            r.port@ == "8181"@,
            r.refresh == 0,
    {
        HTTPServer { ip: String::new(), port: "8181".to_owned(), refresh: 0 }
    }
}

pub fn default_name() -> (r: String)
    ensures
        r@ == "EaseProbe"@,
{
    "EaseProbe".to_owned()
}

pub fn default_time_format() -> (r: String)
    ensures
        r@ == "%Y-%m-%d %H:%M:%S%Z"@,
{
    "%Y-%m-%d %H:%M:%S%Z".to_owned()
}

pub fn default_time_zone() -> (r: String)
    ensures
        r@ == "UTC"@,
{
    "UTC".to_owned()
}

/// The global settings: identity, time formatting, and the defaults merged
/// into probers and notifiers.
#[derive(Debug)]
pub struct Settings {
    pub name: String,
    pub icon: String,
    pub pid: String,
    pub timeformat: String,
    pub timezone: String,
    pub probe: ProbeSettings,
    pub notify: NotifierSetting,
    pub sla: SLAReport,
    pub http: HTTPServer,
}

impl Default for Settings {
    fn default() -> (r: Self)
        ensures
            r.name@ == "EaseProbe"@,
            r.icon@ == Seq::<char>::empty(),
            r.pid@ == Seq::<char>::empty(),
            r.timeformat@ == "%Y-%m-%d %H:%M:%S%Z"@,
            r.timezone@ == "UTC"@,
            r.probe.interval == 0,
            r.probe.timeout == 0,
            r.probe.threshold.failure == 1,
            r.probe.threshold.success == 1,
            r.notify.timeout == 0,
            r.notify.retry.times == crate::global::DEFAULT_RETRY_TIMES,
            r.notify.retry.interval == crate::global::DEFAULT_RETRY_INTERVAL_MILLIS,
    {
        Settings {
            name: default_name(),
            icon: String::new(),
            pid: String::new(),
            timeformat: default_time_format(),
            timezone: default_time_zone(),
            probe: ProbeSettings::default(),
            notify: NotifierSetting::default(),
            sla: SLAReport::default(),
            http: HTTPServer::default(),
        }
    }
}

/// The whole configuration document.
#[derive(Debug)]
pub struct Conf {
    pub version: String,
    pub http: Vec<HttpProber>,
    pub notify: Config,
    pub settings: Settings,
}

} // verus!

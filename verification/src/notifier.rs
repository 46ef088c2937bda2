//! The uniform shape of all notifier kinds, the shared implementation, and
//! the log reference notifier.
//!
//! A notify decision is rendered here into data — the title and body of a
//! send, or the log line of a dry run. Carrying the send out (and retrying
//! it) is the embedding runtime's job, driven by the retry driver.

use vstd::prelude::*;
use crate::global::{
    default_channel_name, spec_default_channel_name, spec_normalize, NotifierSetting, Retry,
    DEFAULT_RETRY_INTERVAL_MILLIS, DEFAULT_RETRY_TIMES, DEFAULT_TIMEOUT_MILLIS,
};
use crate::report::{spec_to_text, to_text, Format};
use crate::result::{spec_title, ProbeResult};
use crate::text::clone_string_vec;

verus! {

/// What a notify decision produced: a real send, or a dry run's log line.
#[derive(Debug)]
pub enum NotifyOutcome {
    Send { title: String, body: String },
    Dry { line: String },
}

/// The log line of a dry-run notification.
pub open spec fn spec_dry_line(kind: Seq<char>, name: Seq<char>, body: Seq<char>) -> Seq<char> {
    "["@ + kind + " / "@ + name + " / dry_notify] - "@ + body
}

/// The log line of a dry-run statistics report.
pub open spec fn spec_dry_stat_line(kind: Seq<char>, name: Seq<char>, body: Seq<char>) -> Seq<
    char,
> {
    "["@ + kind + " / "@ + name + " / dry_notify_stat] - "@ + body
}

/// The uniform shape of an alert sink: identification, routing, one-time
/// configuration, and the rendering of notifications.
pub trait Notifier: Sized {
    spec fn spec_kind(&self) -> Seq<char>;

    spec fn spec_name(&self) -> Seq<char>;

    spec fn spec_channels(&self) -> Seq<Seq<char>>;

    spec fn spec_dry(&self) -> bool;

    fn kind(&self) -> (r: &str)
        ensures
            r@ == self.spec_kind(),
    ;

    fn name(&self) -> (r: &str)
        ensures
            r@ == self.spec_name(),
    ;

    fn channels(&self) -> (r: Vec<String>)
        ensures
            r@.map_values(|s: String| s@) == self.spec_channels(),
    ;

    /// Whether one-time configuration succeeds on this notifier.
    spec fn spec_config_ok(&self, setting: NotifierSetting) -> bool;

    /// How one-time configuration relates the notifier before and after the
    /// call; it holds whether or not the call succeeded.
    spec fn spec_config_rel(pre: Self, post: Self, setting: NotifierSetting) -> bool;

    /// One-time setup against the global defaults; afterwards the notifier is
    /// bound to at least one channel and keeps its identity. Succeeds exactly
    /// on the notifiers `spec_config_ok` admits.
    fn config(&mut self, setting: &NotifierSetting) -> (r: Result<(), String>)
        ensures
            r is Ok <==> old(self).spec_config_ok(*setting),
            Self::spec_config_rel(*old(self), *final(self), *setting),
            old(self).spec_kind().len() > 0 ==> final(self).spec_kind() == old(self).spec_kind(),
            final(self).spec_name() == old(self).spec_name(),
            final(self).spec_dry() == old(self).spec_dry(),
            r is Ok ==> final(self).spec_channels().len() > 0,
    ;

    /// A copy sharing nothing with the original but equal in the model.
    fn duplicate(&self) -> (r: Self)
        ensures
            r.spec_kind() == self.spec_kind(),
            r.spec_name() == self.spec_name(),
            r.spec_channels() == self.spec_channels(),
            r.spec_dry() == self.spec_dry(),
    ;

    /// Renders the notification for one result: a dry notifier produces only
    /// its log line; otherwise the title and the formatted body to send.
    fn notify(&self, res: &ProbeResult) -> (r: NotifyOutcome)
        ensures
            r is Dry <==> self.spec_dry(),
            r matches NotifyOutcome::Send { title, body } ==> title@ == spec_title(res@) && exists|
                time: Seq<char>,
            | body@ == spec_to_text(res@, time),
            r matches NotifyOutcome::Dry { line } ==> exists|time: Seq<char>|
                line@ == spec_dry_line(
                    self.spec_kind(),
                    self.spec_name(),
                    spec_to_text(res@, time),
                ),
    ;

    /// The log line of a dry run for one result; nothing is sent anywhere.
    fn dry_notify(&self, res: &ProbeResult) -> (line: String)
        ensures
            exists|time: Seq<char>|
                line@ == spec_dry_line(
                    self.spec_kind(),
                    self.spec_name(),
                    spec_to_text(res@, time),
                ),
    ;
}

/// What the shared one-time setup does: the timeout and the retry policy
/// normalized against the global defaults, the default channel bound when
/// none is named, everything else kept. `kind` is what the notifier's kind
/// reads afterwards: the shared setup keeps it, and kinds that default it
/// bind it first.
pub open spec fn spec_notifier_config_rel(
    pre: DefaultNotifier,
    post: DefaultNotifier,
    s: NotifierSetting,
    kind: Seq<char>,
) -> bool {
    &&& post.timeout as int == spec_normalize(
        s.timeout as int,
        pre.timeout as int,
        0,
        DEFAULT_TIMEOUT_MILLIS as int,
    )
    &&& post.retry.interval as int == spec_normalize(
        s.retry.interval as int,
        pre.retry.interval as int,
        0,
        DEFAULT_RETRY_INTERVAL_MILLIS as int,
    )
    &&& post.retry.times as int == spec_normalize(
        s.retry.times as int,
        pre.retry.times as int,
        0,
        DEFAULT_RETRY_TIMES as int,
    )
    &&& post.channels@.map_values(|x: String| x@) == if pre.channels@.map_values(
        |x: String| x@,
    ).len() == 0 {
        seq![spec_default_channel_name()]
    } else {
        pre.channels@.map_values(|x: String| x@)
    }
    &&& post.kind@ == kind
    &&& post.name == pre.name
    &&& post.format == pre.format
    &&& post.dry == pre.dry
}

/// The shared implementation under every notifier kind. The concrete send
/// primitive lives with the embedding runtime, keyed by `kind`.
#[derive(Debug)]
pub struct DefaultNotifier {
    pub kind: String,
    pub format: Format,
    pub name: String,
    pub channels: Vec<String>,
    pub dry: bool,
    pub timeout: u64,
    pub retry: Retry,
}

impl DefaultNotifier {
    /// Renders the statistics report: a dry notifier produces only its log
    /// line; otherwise the fixed report title and body.
    pub fn notify_stat(&self) -> (r: NotifyOutcome)
        ensures
            r is Dry <==> self.dry,
            r matches NotifyOutcome::Send { title, body } ==> title@ == "Overall SLA Report"@
                && body@ == "[Overall SLA Report]\n\n"@,
            r matches NotifyOutcome::Dry { line } ==> line@ == spec_dry_stat_line(
                self.kind@,
                self.name@,
                "[Overall SLA Report]\n\n"@,
            ),
    {
        if self.dry {
            NotifyOutcome::Dry { line: self.dry_notify_stat() }
        } else {
            NotifyOutcome::Send {
                title: "Overall SLA Report".to_owned(),
                body: crate::report::sla_text(),
            }
        }
    }

    /// The log line of a dry statistics run.
    pub fn dry_notify_stat(&self) -> (line: String)
        ensures
            line@ == spec_dry_stat_line(self.kind@, self.name@, "[Overall SLA Report]\n\n"@),
    {
        let mut line = "[".to_owned();
        line.append(self.kind.as_str());
        line.append(" / ");
        line.append(self.name.as_str());
        line.append(" / dry_notify_stat] - ");
        line.append(crate::report::sla_text().as_str());
        line
    }
}

impl Notifier for DefaultNotifier {
    open spec fn spec_kind(&self) -> Seq<char> {
        self.kind@
    }

    open spec fn spec_name(&self) -> Seq<char> {
        self.name@
    }

    open spec fn spec_channels(&self) -> Seq<Seq<char>> {
        self.channels@.map_values(|s: String| s@)
    }

    open spec fn spec_dry(&self) -> bool {
        self.dry
    }

    fn kind(&self) -> (r: &str) {
        self.kind.as_str()
    }

    fn name(&self) -> (r: &str) {
        self.name.as_str()
    }

    fn channels(&self) -> (r: Vec<String>) {
        clone_string_vec(&self.channels)
    }

    open spec fn spec_config_ok(&self, setting: NotifierSetting) -> bool {
        true
    }

    open spec fn spec_config_rel(pre: Self, post: Self, setting: NotifierSetting) -> bool {
        spec_notifier_config_rel(pre, post, setting, pre.kind@)
    }

    /// Applies normalization to the timeout and the retry policy and binds
    /// the default channel when none is named; it always succeeds.
    fn config(&mut self, setting: &NotifierSetting) -> (r: Result<(), String>)
        ensures
            r is Ok,
            final(self).kind == old(self).kind,
    {
        self.timeout = setting.normalize_timeout(self.timeout);
        self.retry = setting.normalize_retry(&self.retry);
        if self.channels.len() == 0 {
            self.channels.push(default_channel_name().to_owned());
            proof {
                assert(self.channels@.map_values(|s: String| s@) =~= seq![
                    spec_default_channel_name(),
                ]);
            }
        }
        Ok(())
    }

    fn duplicate(&self) -> (r: Self) {
        DefaultNotifier {
            kind: self.kind.clone(),
            format: self.format,
            name: self.name.clone(),
            channels: clone_string_vec(&self.channels),
            dry: self.dry,
            timeout: self.timeout,
            retry: self.retry,
        }
    }

    fn notify(&self, res: &ProbeResult) -> (r: NotifyOutcome) {
        if self.dry {
            NotifyOutcome::Dry { line: self.dry_notify(res) }
        } else {
            let title = res.title();
            let body = crate::report::format_funcs(self.format).result_fn(res);
            NotifyOutcome::Send { title, body }
        }
    }

    fn dry_notify(&self, res: &ProbeResult) -> (line: String) {
        let body = to_text(res);
        let mut line = "[".to_owned();
        line.append(self.kind.as_str());
        line.append(" / ");
        line.append(self.name.as_str());
        line.append(" / dry_notify] - ");
        line.append(body.as_str());
        line
    }
}

/// A notifier for wiring tests: text format, live mode, no retries yet.
pub fn new_dummy_notify(kind: &str, name: &str, channels: Vec<String>) -> (r: DefaultNotifier)
    ensures
        r.kind@ == kind@,
        r.name@ == name@,
        r.format == Format::Text,
        r.channels@.map_values(|s: String| s@) == channels@.map_values(|s: String| s@),
        r.dry == false,
        r.timeout == 0,
        r.retry.times == 0,
        r.retry.interval == 0,
{
    DefaultNotifier {
        kind: kind.to_owned(),
        format: Format::Text,
        name: name.to_owned(),
        channels,
        dry: false,
        timeout: 0,
        retry: Retry::default(),
    }
}

/// The log reference notifier: the shared shape plus the file it appends to.
/// Opening the file and writing to it are the embedding runtime's job.
#[derive(Debug)]
pub struct LogConfig {
    pub default: DefaultNotifier,
    pub file: String,
    pub host: String,
    pub network: String,
}

impl Notifier for LogConfig {
    open spec fn spec_kind(&self) -> Seq<char> {
        self.default.kind@
    }

    open spec fn spec_name(&self) -> Seq<char> {
        self.default.name@
    }

    open spec fn spec_channels(&self) -> Seq<Seq<char>> {
        self.default.channels@.map_values(|s: String| s@)
    }

    open spec fn spec_dry(&self) -> bool {
        self.default.dry
    }

    fn kind(&self) -> (r: &str) {
        self.default.kind.as_str()
    }

    fn name(&self) -> (r: &str) {
        self.default.name.as_str()
    }

    fn channels(&self) -> (r: Vec<String>) {
        clone_string_vec(&self.default.channels)
    }

    open spec fn spec_config_ok(&self, setting: NotifierSetting) -> bool {
        true
    }

    open spec fn spec_config_rel(pre: Self, post: Self, setting: NotifierSetting) -> bool {
        &&& spec_notifier_config_rel(
            pre.default,
            post.default,
            setting,
            if pre.default.kind@.len() == 0 {
                "log"@
            } else {
                pre.default.kind@
            },
        )
        &&& post.file == pre.file
        &&& post.host == pre.host
        &&& post.network == pre.network
    }

    /// Binds the kind `log` when none is named, then the shared setup; it
    /// always succeeds.
    fn config(&mut self, setting: &NotifierSetting) -> (r: Result<(), String>)
        ensures
            r is Ok,
    {
        if self.default.kind.as_str().is_empty() {
            self.default.kind = "log".to_owned();
        }
        let r = self.default.config(setting);
        match r {
            Ok(_) => Ok(()),
            Err(e) => Err(e),
        }
    }

    fn duplicate(&self) -> (r: Self) {
        LogConfig {
            default: self.default.duplicate(),
            file: self.file.clone(),
            host: self.host.clone(),
            network: self.network.clone(),
        }
    }

    fn notify(&self, res: &ProbeResult) -> (r: NotifyOutcome) {
        self.default.notify(res)
    }

    fn dry_notify(&self, res: &ProbeResult) -> (line: String) {
        self.default.dry_notify(res)
    }
}

/// The notifier section of the configuration document.
#[derive(Debug)]
pub struct Config {
    pub log: Vec<LogConfig>,
}

} // verus!

//! The uniform shape of all probe kinds, and the shared evaluation logic:
//! timestamping, the sliding counter, the status transition rule, and the
//! message of one observation.

use vstd::prelude::*;
use crate::counter::spec_append;
use crate::global::{
    default_channel_name, spec_default_channel_name, spec_normalize, spec_normalize_strategy,
    ProbeSettings, StatusChangeThresholdSettings, NotificationStrategySettings,
    DEFAULT_PROBE_INTERVAL_MILLIS, DEFAULT_TIMEOUT_MILLIS,
};
use crate::result::{spec_bump, ProbeResult, ResultModel, StatModel};
use crate::status::{spec_status_title, Status};
use crate::strategy::NotificationStrategyData;
use crate::text::clone_string_vec;

verus! {

/// Relies on std::time::SystemTime::now: milliseconds since the Unix epoch;
/// nothing is promised of the clock.
#[verifier::external_body]
pub(crate) fn now_millis() -> u64 {
    match std::time::SystemTime::now().duration_since(std::time::UNIX_EPOCH) {
        Ok(d) => d.as_millis() as u64,
        Err(_) => 0,
    }
}

/// One observation of a kind-specific behavior: `Ok((success, message))`, or
/// the text of an error, which the evaluation turns into a failed
/// observation.
pub trait ProbeBehavior {
    fn do_probe(&self) -> Result<(bool, String), String>;
}

/// A behavior that always succeeds; it backs the probers that wiring tests
/// use.
#[derive(Clone, Copy, Debug, PartialEq, Eq, Structural)]
pub struct DummyProbeBehavior;

impl ProbeBehavior for DummyProbeBehavior {
    fn do_probe(&self) -> (r: Result<(bool, String), String>)
        ensures
            r is Ok,
            r matches Ok(p) ==> p.0 == true && p.1@ == "Dummy probe succeeded"@,
    {
        Ok((true, "Dummy probe succeeded".to_owned()))
    }
}

/// The timeout a probe falls back to.
pub fn default_timeout() -> (r: u64)
    ensures
        r == crate::global::DEFAULT_TIMEOUT_MILLIS,
{
    30000
}

/// The interval a probe falls back to.
pub fn default_interval() -> (r: u64)
    ensures
        r == crate::global::DEFAULT_PROBE_INTERVAL_MILLIS,
{
    60000
}

/// The uniform shape of a probe source: identification, routing, timing, its
/// latest result, and one-time configuration.
pub trait Prober: Sized {
    spec fn spec_kind(&self) -> Seq<char>;

    spec fn spec_name(&self) -> Seq<char>;

    spec fn spec_channels(&self) -> Seq<Seq<char>>;

    spec fn spec_timeout(&self) -> u64;

    spec fn spec_interval(&self) -> u64;

    spec fn spec_result(&self) -> ResultModel;

    fn kind(&self) -> (r: &str)
        ensures
            r@ == self.spec_kind(),
    ;

    fn name(&self) -> (r: &str)
        ensures
            r@ == self.spec_name(),
    ;

    fn channels(&self) -> (r: Vec<String>)
        ensures
            r@.map_values(|s: String| s@) == self.spec_channels(),
    ;

    fn timeout(&self) -> (r: u64)
        ensures
            r == self.spec_timeout(),
    ;

    fn interval(&self) -> (r: u64)
        ensures
            r == self.spec_interval(),
    ;

    /// Mutable access to the latest result; everything else of the prober
    /// stays as it was.
    fn result(&mut self) -> (r: &mut ProbeResult)
        ensures
            (*r)@ == old(self).spec_result(),
            final(self).spec_result() == (*final(r))@,
            final(self).spec_kind() == old(self).spec_kind(),
            final(self).spec_name() == old(self).spec_name(),
            final(self).spec_channels() == old(self).spec_channels(),
            final(self).spec_timeout() == old(self).spec_timeout(),
            final(self).spec_interval() == old(self).spec_interval(),
    ;

    /// Whether one-time configuration succeeds on this prober.
    spec fn spec_config_ok(&self, setting: ProbeSettings) -> bool;

    /// How one-time configuration relates the prober before and after the
    /// call; it holds whether or not the call succeeded.
    spec fn spec_config_rel(pre: Self, post: Self, setting: ProbeSettings) -> bool;

    /// One-time setup against the global defaults; afterwards the prober is
    /// bound to at least one channel and keeps its identity. Succeeds exactly
    /// on the probers `spec_config_ok` admits.
    fn config(&mut self, setting: &ProbeSettings) -> (r: Result<(), String>)
        ensures
            r is Ok <==> old(self).spec_config_ok(*setting),
            Self::spec_config_rel(*old(self), *final(self), *setting),
            final(self).spec_kind() == old(self).spec_kind(),
            final(self).spec_name() == old(self).spec_name(),
            final(self).spec_channels().len() > 0,
    ;

    /// A copy sharing nothing with the original but equal in the model.
    fn duplicate(&self) -> (r: Self)
        ensures
            r.spec_kind() == self.spec_kind(),
            r.spec_name() == self.spec_name(),
            r.spec_channels() == self.spec_channels(),
            r.spec_timeout() == self.spec_timeout(),
            r.spec_interval() == self.spec_interval(),
            r.spec_result() == self.spec_result(),
    ;
}

/// The status after one observation: it flips to Up or Down when the run of
/// equal observations crosses the matching threshold, else keeps its
/// previous value.
pub open spec fn spec_transition(
    prev: Status,
    current: bool,
    count: int,
    threshold: StatusChangeThresholdSettings,
) -> Status {
    if current && count >= threshold.success {
        Status::Up
    } else if !current && count >= threshold.failure {
        Status::Down
    } else {
        prev
    }
}

/// The message of one evaluation: `<title> (<kind>[/<tag>]): <raw>`.
pub open spec fn spec_probe_message(
    status: Status,
    kind: Seq<char>,
    tag: Seq<char>,
    raw: Seq<char>,
) -> Seq<char> {
    spec_status_title(status) + " ("@ + kind + (if tag.len() == 0 {
        Seq::<char>::empty()
    } else {
        "/"@ + tag
    }) + "): "@ + raw
}

/// The whole result after recording one raw observation.
pub open spec fn spec_record(
    m: ResultModel,
    kind: Seq<char>,
    tag: Seq<char>,
    threshold: StatusChangeThresholdSettings,
    now: u64,
    rtt: u64,
    ok: bool,
    raw: Seq<char>,
) -> ResultModel {
    let counter = spec_append(m.stat.status_counter, ok, raw);
    let status = spec_transition(m.status, ok, counter.status_count as int, threshold);
    ResultModel {
        start_time: now,
        start_timestamp: now,
        round_trip_time: rtt,
        pre_status: m.status,
        status,
        message: spec_probe_message(status, kind, tag, raw),
        latest_downtime: if m.status != Status::Down && status == Status::Down {
            now
        } else {
            m.latest_downtime
        },
        recovery_time: if m.status == Status::Down && status == Status::Up {
            if now >= m.latest_downtime {
                (now - m.latest_downtime) as u64
            } else {
                0
            }
        } else {
            m.recovery_time
        },
        stat: StatModel {
            total: if m.stat.total < i64::MAX {
                (m.stat.total + 1) as i64
            } else {
                m.stat.total
            },
            status: spec_bump(m.stat.status, status),
            status_counter: counter,
            ..m.stat
        },
        ..m
    }
}

/// What the shared one-time setup does: thresholds, timing and the
/// notification policy normalized against the global defaults, the default
/// channel bound when none is named, the normalized policy bound into the
/// result's strategy state, the result named after the prober, and a result
/// that was never evaluated marked initializing. `endpoint` is what the
/// result's endpoint reads afterwards: the shared setup keeps it, and kinds
/// that know their endpoint bind it.
pub open spec fn spec_base_config_rel<B: ProbeBehavior>(
    pre: DefaultProber<B>,
    post: DefaultProber<B>,
    s: ProbeSettings,
    endpoint: Seq<char>,
) -> bool {
    &&& post.threshold.failure as int == spec_normalize(
        s.threshold.failure as int,
        pre.threshold.failure as int,
        0,
        1,
    )
    &&& post.threshold.success as int == spec_normalize(
        s.threshold.success as int,
        pre.threshold.success as int,
        0,
        1,
    )
    &&& post.timeout as int == spec_normalize(
        s.timeout as int,
        pre.timeout as int,
        0,
        DEFAULT_TIMEOUT_MILLIS as int,
    )
    &&& post.interval as int == spec_normalize(
        s.interval as int,
        pre.interval as int,
        0,
        DEFAULT_PROBE_INTERVAL_MILLIS as int,
    )
    &&& post.notification.strategy == spec_normalize_strategy(
        s.notification.strategy,
        pre.notification.strategy,
    )
    &&& post.notification.factor as int == spec_normalize(
        s.notification.factor as int,
        pre.notification.factor as int,
        0,
        1,
    )
    &&& post.notification.max_times as int == spec_normalize(
        s.notification.max_times as int,
        pre.notification.max_times as int,
        0,
        1,
    )
    &&& post.channels@.map_values(|x: String| x@) == if pre.channels@.map_values(
        |x: String| x@,
    ).len() == 0 {
        seq![spec_default_channel_name()]
    } else {
        pre.channels@.map_values(|x: String| x@)
    }
    &&& post.kind == pre.kind
    &&& post.tag == pre.tag
    &&& post.name == pre.name
    &&& post.behavior == pre.behavior
    &&& post.result@ == (ResultModel {
        status: if pre.result@.status == Status::Unknown {
            Status::Init
        } else {
            pre.result@.status
        },
        pre_status: if pre.result@.status == Status::Unknown {
            Status::Init
        } else {
            pre.result@.pre_status
        },
        name: if pre.result@.name.len() == 0 {
            pre.name@
        } else {
            pre.result@.name
        },
        endpoint,
        stat: StatModel {
            notification_strategy_data: NotificationStrategyData {
                strategy: post.notification.strategy,
                factor: post.notification.factor as u32,
                max_times: post.notification.max_times as u32,
                notified: 0,
                failed: 0,
                next: 1,
            },
            ..pre.result@.stat
        },
        ..pre.result@
    })
}

/// The shared implementation under every probe kind: identity, routing,
/// timing, thresholds, the notification policy, and the latest result.
#[derive(Debug)]
pub struct DefaultProber<B: ProbeBehavior> {
    pub kind: String,
    pub tag: String,
    pub name: String,
    pub channels: Vec<String>,
    pub timeout: u64,
    pub interval: u64,
    pub behavior: B,
    pub result: ProbeResult,
    pub threshold: StatusChangeThresholdSettings,
    pub notification: NotificationStrategySettings,
}

/// The log prefix of a prober.
pub open spec fn spec_log_title(kind: Seq<char>, tag: Seq<char>, name: Seq<char>) -> Seq<char> {
    if tag.len() == 0 {
        "["@ + kind + " / "@ + tag + " / "@ + name + "]"@
    } else {
        "["@ + kind + " / "@ + name + "]"@
    }
}

impl<B: ProbeBehavior> DefaultProber<B> {
    /// The prefix this prober is identified by in log lines.
    pub fn log_title(&self) -> (r: String)
        ensures
            r@ == spec_log_title(self.kind@, self.tag@, self.name@),
    {
        let mut s = "[".to_owned();
        s.append(self.kind.as_str());
        s.append(" / ");
        if self.tag.as_str().is_empty() {
            s.append(self.tag.as_str());
            s.append(" / ");
        }
        s.append(self.name.as_str());
        s.append("]");
        s
    }

    /// Records one raw observation: timestamps the result, appends to the
    /// sliding counter, applies the status transition rule, tracks downtime
    /// and recovery, and builds the message. Returns a copy of the result.
    pub fn record_probe(&mut self, now: u64, rtt: u64, ok: bool, raw: String) -> (r: ProbeResult)
        requires
            old(self).threshold.failure >= 1,
            old(self).threshold.success >= 1,
        ensures
            final(self).result@ == spec_record(
                old(self).result@,
                old(self).kind@,
                old(self).tag@,
                old(self).threshold,
                now,
                rtt,
                ok,
                raw@,
            ),
            r@ == final(self).result@,
            final(self).kind == old(self).kind,
            final(self).tag == old(self).tag,
            final(self).name == old(self).name,
            final(self).channels == old(self).channels,
            final(self).timeout == old(self).timeout,
            final(self).interval == old(self).interval,
            final(self).threshold == old(self).threshold,
            final(self).notification == old(self).notification,
    {
        self.result.start_time = now;
        self.result.start_timestamp = now;
        self.result.round_trip_time = rtt;
        self.result.stat.status_counter.append_status(ok, raw.clone());
        self.result.pre_status = self.result.status;
        let count = self.result.stat.status_counter.status_count;
        let cur = self.result.stat.status_counter.current_status;
        let new_status = if cur && count >= self.threshold.success as usize {
            Status::Up
        } else if !cur && count >= self.threshold.failure as usize {
            Status::Down
        } else {
            self.result.status
        };
        if new_status == Status::Down && !(self.result.pre_status == Status::Down) {
            self.result.latest_downtime = now;
        }
        if new_status == Status::Up && self.result.pre_status == Status::Down {
            self.result.recovery_time = if now >= self.result.latest_downtime {
                now - self.result.latest_downtime
            } else {
                0
            };
        }
        self.result.status = new_status;
        if self.result.stat.total < i64::MAX {
            self.result.stat.total = self.result.stat.total + 1;
        }
        self.result.stat.status.bump(new_status);
        let title = new_status.title();
        let mut message = title.to_owned();
        message.append(" (");
        message.append(self.kind.as_str());
        if !self.tag.as_str().is_empty() {
            message.append("/");
            message.append(self.tag.as_str());
        }
        message.append("): ");
        message.append(raw.as_str());
        self.result.message = message;
        proof {
            assert(self.result@ =~~= spec_record(
                old(self).result@,
                old(self).kind@,
                old(self).tag@,
                old(self).threshold,
                now,
                rtt,
                ok,
                raw@,
            ));
        }
        self.result.clone()
    }

    /// One-time shared setup: normalizes the thresholds, the timing and the
    /// notification policy against the global defaults, binds the default
    /// channel when none is named, binds the normalized policy into the
    /// result's strategy state, names the result after the prober, and marks
    /// a result that was never evaluated as initializing.
    pub fn base_config(&mut self, setting: &ProbeSettings) -> (r: Result<(), String>)
        ensures
            r is Ok,
            spec_base_config_rel(*old(self), *final(self), *setting, old(self).result@.endpoint),
            final(self).threshold.failure >= 1,
            final(self).threshold.success >= 1,
            final(self).result@.stat.notification_strategy_data.wf(),
    {
        self.threshold = setting.normalize_threshold(self.threshold);
        self.timeout = setting.normalize_timeout(self.timeout);
        self.interval = setting.normalize_interval(self.interval);
        self.notification = setting.normalize_notification_strategy(self.notification);
        if self.channels.len() == 0 {
            self.channels.push(default_channel_name().to_owned());
            proof {
                assert(self.channels@.map_values(|x: String| x@) =~= seq![
                    spec_default_channel_name(),
                ]);
            }
        }
        self.result.stat.notification_strategy_data = NotificationStrategyData::new(
            &self.notification,
        );
        if self.result.name.as_str().is_empty() {
            self.result.name = self.name.clone();
        }
        if self.result.status == Status::Unknown {
            self.result.status = Status::Init;
            self.result.pre_status = Status::Init;
        }
        proof {
            assert(self.result@ =~~= (ResultModel {
                status: if old(self).result@.status == Status::Unknown {
                    Status::Init
                } else {
                    old(self).result@.status
                },
                pre_status: if old(self).result@.status == Status::Unknown {
                    Status::Init
                } else {
                    old(self).result@.pre_status
                },
                name: if old(self).result@.name.len() == 0 {
                    old(self).name@
                } else {
                    old(self).result@.name
                },
                endpoint: old(self).result@.endpoint,
                stat: StatModel {
                    notification_strategy_data: NotificationStrategyData {
                        strategy: self.notification.strategy,
                        factor: self.notification.factor as u32,
                        max_times: self.notification.max_times as u32,
                        notified: 0,
                        failed: 0,
                        next: 1,
                    },
                    ..old(self).result@.stat
                },
                ..old(self).result@
            }));
        }
        Ok(())
    }

    /// Executes one probe attempt: asks the behavior for an observation,
    /// measures the round trip, and records the outcome; an error of the
    /// behavior becomes a failed observation carrying the error text.
    pub fn probe(&mut self) -> (r: ProbeResult)
        requires
            old(self).threshold.failure >= 1,
            old(self).threshold.success >= 1,
        ensures
            r@ == final(self).result@,
            exists|now: u64, rtt: u64, outcome: Result<(bool, String), String>, ok: bool, raw: Seq<char>|
                #![trigger call_ensures(B::do_probe, (&old(self).behavior,), outcome), spec_record(
                    old(self).result@,
                    old(self).kind@,
                    old(self).tag@,
                    old(self).threshold,
                    now,
                    rtt,
                    ok,
                    raw,
                )]
                {
                    &&& call_ensures(B::do_probe, (&old(self).behavior,), outcome)
                    &&& ok == match outcome {
                        Ok(p) => p.0,
                        Err(_) => false,
                    }
                    &&& raw == match outcome {
                        Ok(p) => p.1@,
                        Err(e) => e@,
                    }
                    &&& final(self).result@ == spec_record(
                        old(self).result@,
                        old(self).kind@,
                        old(self).tag@,
                        old(self).threshold,
                        now,
                        rtt,
                        ok,
                        raw,
                    )
                },
            final(self).kind == old(self).kind,
            final(self).tag == old(self).tag,
            final(self).name == old(self).name,
            final(self).channels == old(self).channels,
            final(self).timeout == old(self).timeout,
            final(self).interval == old(self).interval,
            final(self).threshold == old(self).threshold,
            final(self).notification == old(self).notification,
    {
        let start = now_millis();
        let outcome = self.behavior.do_probe();
        let ghost outcome_snapshot = outcome;
        let end = now_millis();
        let rtt = if end >= start {
            end - start
        } else {
            0
        };
        let (ok, raw) = match outcome {
            Ok(p) => p,
            Err(e) => (false, e),
        };
        let ghost raw_view = raw@;
        let r = self.record_probe(start, rtt, ok, raw);
        proof {
            assert(call_ensures(B::do_probe, (&old(self).behavior,), outcome_snapshot));
            assert(ok == match outcome_snapshot {
                Ok(p) => p.0,
                Err(_) => false,
            });
            assert(raw_view == match outcome_snapshot {
                Ok(p) => p.1@,
                Err(e) => e@,
            });
            assert(self.result@ == spec_record(
                old(self).result@,
                old(self).kind@,
                old(self).tag@,
                old(self).threshold,
                start,
                rtt,
                ok,
                raw_view,
            ));
        }
        r
    }
}

impl<B: ProbeBehavior + Clone> Prober for DefaultProber<B> {
    open spec fn spec_kind(&self) -> Seq<char> {
        self.kind@
    }

    open spec fn spec_name(&self) -> Seq<char> {
        self.name@
    }

    open spec fn spec_channels(&self) -> Seq<Seq<char>> {
        self.channels@.map_values(|s: String| s@)
    }

    open spec fn spec_timeout(&self) -> u64 {
        self.timeout
    }

    open spec fn spec_interval(&self) -> u64 {
        self.interval
    }

    open spec fn spec_result(&self) -> ResultModel {
        self.result@
    }

    fn kind(&self) -> (r: &str) {
        self.kind.as_str()
    }

    fn name(&self) -> (r: &str) {
        self.name.as_str()
    }

    fn channels(&self) -> (r: Vec<String>) {
        clone_string_vec(&self.channels)
    }

    fn timeout(&self) -> (r: u64) {
        self.timeout
    }

    fn interval(&self) -> (r: u64) {
        self.interval
    }

    fn result(&mut self) -> (r: &mut ProbeResult) {
        &mut self.result
    }

    open spec fn spec_config_ok(&self, setting: ProbeSettings) -> bool {
        true
    }

    open spec fn spec_config_rel(pre: Self, post: Self, setting: ProbeSettings) -> bool {
        spec_base_config_rel(pre, post, setting, pre.result@.endpoint)
    }

    /// The shared one-time setup; it always succeeds.
    fn config(&mut self, setting: &ProbeSettings) -> (r: Result<(), String>)
        ensures
            r is Ok,
            final(self).threshold.failure >= 1,
            final(self).threshold.success >= 1,
    {
        self.base_config(setting)
    }

    fn duplicate(&self) -> (r: Self) {
        DefaultProber {
            kind: self.kind.clone(),
            tag: self.tag.clone(),
            name: self.name.clone(),
            channels: clone_string_vec(&self.channels),
            timeout: self.timeout,
            interval: self.interval,
            behavior: self.behavior.clone(),
            result: self.result.clone(),
            threshold: self.threshold,
            notification: self.notification,
        }
    }
}

/// A prober for wiring tests: a dummy behavior with the given identity and
/// channels.
pub fn new_dummy_prober(kind: &str, tag: &str, name: &str, channels: Vec<String>) -> (r:
    DefaultProber<DummyProbeBehavior>)
    ensures
        r.kind@ == kind@,
        r.tag@ == tag@,
        r.name@ == name@,
        r.channels@.map_values(|s: String| s@) == channels@.map_values(|s: String| s@),
        r.timeout == 1000,
        r.interval == 5000,
        r.threshold.failure == 1,
        r.threshold.success == 1,
        r.result@.status == Status::Unknown,
        r.result@.pre_status == Status::Unknown,
        r.result@.stat == crate::result::spec_default_stat(),
{
    DefaultProber {
        kind: kind.to_owned(),
        tag: tag.to_owned(),
        name: name.to_owned(),
        channels,
        timeout: 1000,
        interval: 5000,
        behavior: DummyProbeBehavior,
        result: ProbeResult::default(),
        threshold: StatusChangeThresholdSettings::default(),
        notification: NotificationStrategySettings::default(),
    }
}

} // verus!

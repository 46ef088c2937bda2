//! Process-wide defaults, the normalization rule that merges global settings
//! with per-entity overrides, and the retry specification.

use vstd::prelude::*;
use crate::text::{lower_of, lowercase};

verus! {

/// The channel an entity is bound to when it names none.
pub open spec fn spec_default_channel_name() -> Seq<char> {
    "__EaseProbe_Channel__"@
}

/// Returns the name of the default channel.
pub fn default_channel_name() -> (r: &'static str)
    ensures
        r@ == spec_default_channel_name(),
{
    "__EaseProbe_Channel__"
}

pub const DEFAULT_TIMEOUT_MILLIS: u64 = 30000;

pub const DEFAULT_PROBE_INTERVAL_MILLIS: u64 = 60000;

pub const DEFAULT_RETRY_INTERVAL_MILLIS: u64 = 5000;

pub const DEFAULT_STATUS_CHANGE_THRESHOLD: i32 = 1;

pub const DEFAULT_NOTIFICATION_FACTOR: i32 = 1;

pub const DEFAULT_MAX_NOTIFICATION_TIMES: i32 = 1;

pub const DEFAULT_RETRY_TIMES: i32 = 3;

/// How a failed notifier send is retried: how many attempts, and the pause
/// between them, in milliseconds.
#[derive(Clone, Copy, Debug, PartialEq, Eq, Structural)]
pub struct Retry {
    pub times: i32,
    pub interval: u64,
}

impl Default for Retry {
    fn default() -> (r: Self)
        ensures
            r.times == 0,
            r.interval == 0,
    {
        Retry { times: 0, interval: 0 }
    }
}

/// The uniform merge rule: a value above the sentinel is "set". A set local
/// value wins; otherwise a set global value; otherwise the default.
pub open spec fn spec_normalize(global: int, local: int, valid: int, dflt: int) -> int {
    if local > valid {
        local
    } else if global > valid {
        global
    } else {
        dflt
    }
}

/// Merges a global setting with a per-entity override: the local value if it
/// is above `valid` (the sentinel meaning "unset"), else the global value if
/// that is, else `dflt`.
pub fn normalize(global: i32, local: i32, valid: i32, dflt: i32) -> (r: i32)
    ensures
        r as int == spec_normalize(global as int, local as int, valid as int, dflt as int),
{
    if local > valid {
        local
    } else if global > valid {
        global
    } else {
        dflt
    }
}

/// The merge rule of `normalize`, for millisecond durations.
pub fn normalize_millis(global: u64, local: u64, valid: u64, dflt: u64) -> (r: u64)
    ensures
        r as int == spec_normalize(global as int, local as int, valid as int, dflt as int),
{
    if local > valid {
        local
    } else if global > valid {
        global
    } else {
        dflt
    }
}

/// Footer appended to every formatted notification.
pub fn footer_string() -> (r: String)
    ensures
        r@ == "EaseProbe v1.0.0 @ localhost"@,
{
    "EaseProbe v1.0.0 @ localhost".to_owned()
}

/// Relies on chrono (DateTime::from_timestamp_millis, with_timezone, format):
/// renders a timestamp in the machine's local time zone, so nothing is
/// promised of the text.
#[verifier::external_body]
pub fn format_time(millis: u64) -> (r: String)
{
    match chrono::DateTime::from_timestamp_millis(millis as i64) {
        Some(t) => t.with_timezone(&chrono::Local).format("%Y-%m-%d %H:%M:%S").to_string(),
        None => String::new(),
    }
}

/// Consecutive observations required before the coarse status flips.
#[derive(Clone, Copy, Debug, PartialEq, Eq, Structural)]
pub struct StatusChangeThresholdSettings {
    pub failure: i32,
    pub success: i32,
}

impl Default for StatusChangeThresholdSettings {
    fn default() -> (r: Self)
        ensures
            r.failure == 1,
            r.success == 1,
    {
        StatusChangeThresholdSettings { failure: 1, success: 1 }
    }
}

pub fn default_failure() -> (r: i32)
    ensures
        r == 1,
{
    1
}

pub fn default_success() -> (r: i32)
    ensures
        r == 1,
{
    1
}

/// How the spacing between successive Down notifications grows.
#[derive(Clone, Copy, Debug, PartialEq, Eq, Structural)]
pub enum IntervalStrategy {
    Unknown,
    Regular,
    Increment,
    Exponential,
}

impl Default for IntervalStrategy {
    fn default() -> (r: Self)
        ensures
            r == IntervalStrategy::Regular,
    {
        IntervalStrategy::Regular
    }
}

/// Strategies ordered as declared, so that Unknown is the sentinel of the
/// merge rule.
pub open spec fn spec_strategy_rank(s: IntervalStrategy) -> int {
    match s {
        IntervalStrategy::Unknown => 0,
        IntervalStrategy::Regular => 1,
        IntervalStrategy::Increment => 2,
        IntervalStrategy::Exponential => 3,
    }
}

/// The merge rule for strategies: Unknown is the sentinel, Regular the
/// default.
pub open spec fn spec_normalize_strategy(global: IntervalStrategy, local: IntervalStrategy) -> IntervalStrategy {
    if spec_strategy_rank(local) > 0 {
        local
    } else if spec_strategy_rank(global) > 0 {
        global
    } else {
        IntervalStrategy::Regular
    }
}

/// The strategy whose tag is the given (already lowercased) text;
/// unrecognized text maps to Unknown.
pub open spec fn spec_strategy_from_tag(t: Seq<char>) -> IntervalStrategy {
    if t == "regular"@ {
        IntervalStrategy::Regular
    } else if t == "increment"@ {
        IntervalStrategy::Increment
    } else if t == "exponent"@ {
        IntervalStrategy::Exponential
    } else {
        IntervalStrategy::Unknown
    }
}

impl IntervalStrategy {
    pub fn rank(&self) -> (r: u8)
        ensures
            r as int == spec_strategy_rank(*self),
    {
        match self {
            IntervalStrategy::Unknown => 0,
            IntervalStrategy::Regular => 1,
            IntervalStrategy::Increment => 2,
            IntervalStrategy::Exponential => 3,
        }
    }

    pub fn to_string(&self) -> (r: &'static str)
        ensures
            *self == IntervalStrategy::Unknown ==> r@ == "unknown"@,
            *self == IntervalStrategy::Regular ==> r@ == "regular"@,
            *self == IntervalStrategy::Increment ==> r@ == "increment"@,
            *self == IntervalStrategy::Exponential ==> r@ == "exponent"@,
    {
        match self {
            IntervalStrategy::Unknown => "unknown",
            IntervalStrategy::Regular => "regular",
            IntervalStrategy::Increment => "increment",
            IntervalStrategy::Exponential => "exponent",
        }
    }

    /// Reads a strategy back from its tag, ignoring case; the error case
    /// never occurs.
    pub fn from_str(s: &str) -> (r: Result<IntervalStrategy, ()>)
        ensures
            r == Result::<IntervalStrategy, ()>::Ok(spec_strategy_from_tag(lower_of(s@))),
    {
        let low = lowercase(s);
        if low == "regular".to_owned() {
            Ok(IntervalStrategy::Regular)
        } else if low == "increment".to_owned() {
            Ok(IntervalStrategy::Increment)
        } else if low == "exponent".to_owned() {
            Ok(IntervalStrategy::Exponential)
        } else {
            Ok(IntervalStrategy::Unknown)
        }
    }
}

/// Per-probe notification policy: the strategy, its growth factor, and the
/// most notifications sent during one downtime span.
#[derive(Clone, Copy, Debug, PartialEq, Eq, Structural)]
pub struct NotificationStrategySettings {
    pub strategy: IntervalStrategy,
    pub factor: i32,
    pub max_times: i32,
}

impl Default for NotificationStrategySettings {
    fn default() -> (r: Self)
        ensures
            r.strategy == IntervalStrategy::Regular,
            r.factor == 1,
            r.max_times == 1,
    {
        NotificationStrategySettings { strategy: IntervalStrategy::Regular, factor: 1, max_times: 1 }
    }
}

/// Global defaults for probers, merged into each prober by `config`.
#[derive(Clone, Copy, Debug, PartialEq, Eq, Structural)]
pub struct ProbeSettings {
    pub interval: u64,
    pub timeout: u64,
    pub threshold: StatusChangeThresholdSettings,
    pub notification: NotificationStrategySettings,
}

impl Default for ProbeSettings {
    fn default() -> (r: Self)
        ensures
            r.interval == 0,
            r.timeout == 0,
            r.threshold.failure == 1,
            r.threshold.success == 1,
            r.notification.strategy == IntervalStrategy::Regular,
            r.notification.factor == 1,
            r.notification.max_times == 1,
    {
        ProbeSettings {
            interval: 0,
            timeout: 0,
            threshold: StatusChangeThresholdSettings::default(),
            notification: NotificationStrategySettings::default(),
        }
    }
}

impl ProbeSettings {
    pub fn normalize_timeout(&self, t: u64) -> (r: u64)
        ensures
            r as int == spec_normalize(self.timeout as int, t as int, 0, DEFAULT_TIMEOUT_MILLIS as int),
    {
        normalize_millis(self.timeout, t, 0, DEFAULT_TIMEOUT_MILLIS)
    }

    pub fn normalize_interval(&self, t: u64) -> (r: u64)
        ensures
            r as int == spec_normalize(
                self.interval as int,
                t as int,
                0,
                DEFAULT_PROBE_INTERVAL_MILLIS as int,
            ),
    {
        normalize_millis(self.interval, t, 0, DEFAULT_PROBE_INTERVAL_MILLIS)
    }

    pub fn normalize_threshold(&self, t: StatusChangeThresholdSettings) -> (r:
        StatusChangeThresholdSettings)
        ensures
            r.failure as int == spec_normalize(
                self.threshold.failure as int,
                t.failure as int,
                0,
                DEFAULT_STATUS_CHANGE_THRESHOLD as int,
            ),
            r.success as int == spec_normalize(
                self.threshold.success as int,
                t.success as int,
                0,
                DEFAULT_STATUS_CHANGE_THRESHOLD as int,
            ),
    {
        StatusChangeThresholdSettings {
            failure: normalize(self.threshold.failure, t.failure, 0, DEFAULT_STATUS_CHANGE_THRESHOLD),
            success: normalize(self.threshold.success, t.success, 0, DEFAULT_STATUS_CHANGE_THRESHOLD),
        }
    }

    pub fn normalize_notification_strategy(&self, t: NotificationStrategySettings) -> (r:
        NotificationStrategySettings)
        ensures
            r.strategy == spec_normalize_strategy(self.notification.strategy, t.strategy),
            r.factor as int == spec_normalize(
                self.notification.factor as int,
                t.factor as int,
                0,
                DEFAULT_NOTIFICATION_FACTOR as int,
            ),
            r.max_times as int == spec_normalize(
                self.notification.max_times as int,
                t.max_times as int,
                0,
                DEFAULT_MAX_NOTIFICATION_TIMES as int,
            ),
    {
        let strategy = if t.strategy.rank() > 0 {
            t.strategy
        } else if self.notification.strategy.rank() > 0 {
            self.notification.strategy
        } else {
            IntervalStrategy::Regular
        };
        NotificationStrategySettings {
            strategy,
            factor: normalize(self.notification.factor, t.factor, 0, DEFAULT_NOTIFICATION_FACTOR),
            max_times: normalize(
                self.notification.max_times,
                t.max_times,
                0,
                DEFAULT_MAX_NOTIFICATION_TIMES,
            ),
        }
    }
}

/// Global defaults for notifiers, merged into each notifier by `config`.
#[derive(Debug)]
pub struct NotifierSetting {
    pub time_format: String,
    pub timeout: u64,
    pub retry: Retry,
}

impl Default for NotifierSetting {
    fn default() -> (r: Self)
        ensures
            r.time_format@ == Seq::<char>::empty(),
            r.timeout == 0,
            r.retry.times == DEFAULT_RETRY_TIMES,
            r.retry.interval == DEFAULT_RETRY_INTERVAL_MILLIS,
    {
        NotifierSetting {
            time_format: String::new(),
            timeout: 0,
            retry: Retry { times: DEFAULT_RETRY_TIMES, interval: DEFAULT_RETRY_INTERVAL_MILLIS },
        }
    }
}

impl NotifierSetting {
    pub fn normalize_timeout(&self, t: u64) -> (r: u64)
        ensures
            r as int == spec_normalize(self.timeout as int, t as int, 0, DEFAULT_TIMEOUT_MILLIS as int),
    {
        normalize_millis(self.timeout, t, 0, DEFAULT_TIMEOUT_MILLIS)
    }

    pub fn normalize_retry(&self, retry: &Retry) -> (r: Retry)
        ensures
            r.interval as int == spec_normalize(
                self.retry.interval as int,
                retry.interval as int,
                0,
                DEFAULT_RETRY_INTERVAL_MILLIS as int,
            ),
            r.times as int == spec_normalize(
                self.retry.times as int,
                retry.times as int,
                0,
                DEFAULT_RETRY_TIMES as int,
            ),
    {
        Retry {
            interval: normalize_millis(
                self.retry.interval,
                retry.interval,
                0,
                DEFAULT_RETRY_INTERVAL_MILLIS,
            ),
            times: normalize(self.retry.times, retry.times, 0, DEFAULT_RETRY_TIMES),
        }
    }
}

} // verus!

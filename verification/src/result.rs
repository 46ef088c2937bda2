//! The value object carrying one probe evaluation's data, together with its
//! accumulated statistics.

use vstd::prelude::*;
use crate::counter::{CounterModel, StatusCounter};
use crate::status::Status;
use crate::strategy::NotificationStrategyData;
use crate::text::dec_digits;

verus! {

/// How many evaluations ended in each status.
#[derive(Clone, Copy, Debug, PartialEq, Eq, Structural)]
pub struct StatusCounts {
    pub init: i64,
    pub up: i64,
    pub down: i64,
    pub unknown: i64,
    pub bad: i64,
}

impl Default for StatusCounts {
    fn default() -> (r: Self)
        ensures
            r == (StatusCounts { init: 0, up: 0, down: 0, unknown: 0, bad: 0 }),
    {
        StatusCounts { init: 0, up: 0, down: 0, unknown: 0, bad: 0 }
    }
}

/// All counters at zero.
pub open spec fn spec_zero_counts() -> StatusCounts {
    StatusCounts { init: 0, up: 0, down: 0, unknown: 0, bad: 0 }
}

/// The strategy state of a fresh probe under the default policy.
pub open spec fn spec_default_strategy_data() -> NotificationStrategyData {
    NotificationStrategyData {
        strategy: crate::global::IntervalStrategy::Regular,
        factor: 1,
        max_times: 1,
        notified: 0,
        failed: 0,
        next: 1,
    }
}

/// The statistics of a fresh prober.
pub open spec fn spec_default_stat() -> StatModel {
    StatModel {
        since: 0,
        total: 0,
        status: spec_zero_counts(),
        uptime: 0,
        downtime: 0,
        notification_strategy_data: spec_default_strategy_data(),
        status_counter: CounterModel {
            history: Seq::<(bool, Seq<char>)>::empty(),
            max_len: 10,
            current_status: true,
            status_count: 0,
        },
    }
}

/// The result of a prober that never ran.
pub open spec fn spec_default_result() -> ResultModel {
    ResultModel {
        name: Seq::<char>::empty(),
        endpoint: Seq::<char>::empty(),
        start_time: 0,
        start_timestamp: 0,
        round_trip_time: 0,
        status: Status::Unknown,
        pre_status: Status::Unknown,
        message: Seq::<char>::empty(),
        latest_downtime: 0,
        recovery_time: 0,
        stat: spec_default_stat(),
    }
}

/// The counter a status falls under.
pub open spec fn spec_count_of(c: StatusCounts, s: Status) -> int {
    match s {
        Status::Init => c.init as int,
        Status::Up => c.up as int,
        Status::Down => c.down as int,
        Status::Unknown => c.unknown as int,
        Status::Bad => c.bad as int,
    }
}

/// The counters after one more evaluation with the given status; the touched
/// counter saturates at the largest representable value.
pub open spec fn spec_bump(c: StatusCounts, s: Status) -> StatusCounts {
    let n = if spec_count_of(c, s) < i64::MAX {
        spec_count_of(c, s) + 1
    } else {
        spec_count_of(c, s)
    };
    match s {
        Status::Init => StatusCounts { init: n as i64, ..c },
        Status::Up => StatusCounts { up: n as i64, ..c },
        Status::Down => StatusCounts { down: n as i64, ..c },
        Status::Unknown => StatusCounts { unknown: n as i64, ..c },
        Status::Bad => StatusCounts { bad: n as i64, ..c },
    }
}

impl StatusCounts {
    /// Records one more evaluation with the given status.
    pub fn bump(&mut self, s: Status)
        ensures
            *final(self) == spec_bump(*old(self), s),
    {
        match s {
            Status::Init => {
                if self.init < i64::MAX {
                    self.init = self.init + 1;
                }
            },
            Status::Up => {
                if self.up < i64::MAX {
                    self.up = self.up + 1;
                }
            },
            Status::Down => {
                if self.down < i64::MAX {
                    self.down = self.down + 1;
                }
            },
            Status::Unknown => {
                if self.unknown < i64::MAX {
                    self.unknown = self.unknown + 1;
                }
            },
            Status::Bad => {
                if self.bad < i64::MAX {
                    self.bad = self.bad + 1;
                }
            },
        }
    }
}

/// The mathematical content of a `Stat`.
#[verifier::ext_equal]
pub struct StatModel {
    pub since: u64,
    pub total: i64,
    pub status: StatusCounts,
    pub uptime: u64,
    pub downtime: u64,
    pub notification_strategy_data: NotificationStrategyData,
    pub status_counter: CounterModel,
}

/// Accumulated statistics of one prober: counts per status, cumulative up
/// and down time in milliseconds, the notification-strategy state, and the
/// sliding window of recent observations.
#[derive(Debug)]
pub struct Stat {
    pub since: u64,
    pub total: i64,
    pub status: StatusCounts,
    pub uptime: u64,
    pub downtime: u64,
    pub notification_strategy_data: NotificationStrategyData,
    pub status_counter: StatusCounter,
}

impl View for Stat {
    type V = StatModel;

    open spec fn view(&self) -> StatModel {
        StatModel {
            since: self.since,
            total: self.total,
            status: self.status,
            uptime: self.uptime,
            downtime: self.downtime,
            notification_strategy_data: self.notification_strategy_data,
            status_counter: self.status_counter@,
        }
    }
}

impl Clone for Stat {
    fn clone(&self) -> (res: Self)
        ensures
            res@ == self@,
    {
        Stat {
            since: self.since,
            total: self.total,
            status: self.status,
            uptime: self.uptime,
            downtime: self.downtime,
            notification_strategy_data: self.notification_strategy_data,
            status_counter: self.status_counter.clone(),
        }
    }
}

impl Default for Stat {
    /// Fresh statistics: a sliding window of ten observations and the default
    /// notification policy.
    fn default() -> (r: Self)
        ensures
            r@ == spec_default_stat(),
    {
        Stat {
            since: 0,
            total: 0,
            status: StatusCounts::default(),
            uptime: 0,
            downtime: 0,
            notification_strategy_data: NotificationStrategyData::default(),
            status_counter: StatusCounter::new(10),
        }
    }
}

/// The mathematical content of a `ProbeResult`.
#[verifier::ext_equal]
pub struct ResultModel {
    pub name: Seq<char>,
    pub endpoint: Seq<char>,
    pub start_time: u64,
    pub start_timestamp: u64,
    pub round_trip_time: u64,
    pub status: Status,
    pub pre_status: Status,
    pub message: Seq<char>,
    pub latest_downtime: u64,
    pub recovery_time: u64,
    pub stat: StatModel,
}

/// One probe evaluation's data: when it started (milliseconds since the
/// epoch), how long it took, the status before and after evaluation, the
/// human-readable message, and the accumulated statistics.
#[derive(Debug)]
pub struct ProbeResult {
    pub name: String,
    pub endpoint: String,
    pub start_time: u64,
    pub start_timestamp: u64,
    pub round_trip_time: u64,
    pub status: Status,
    pub pre_status: Status,
    pub message: String,
    pub latest_downtime: u64,
    pub recovery_time: u64,
    pub stat: Stat,
}

impl View for ProbeResult {
    type V = ResultModel;

    open spec fn view(&self) -> ResultModel {
        ResultModel {
            name: self.name@,
            endpoint: self.endpoint@,
            start_time: self.start_time,
            start_timestamp: self.start_timestamp,
            round_trip_time: self.round_trip_time,
            status: self.status,
            pre_status: self.pre_status,
            message: self.message@,
            latest_downtime: self.latest_downtime,
            recovery_time: self.recovery_time,
            stat: self.stat@,
        }
    }
}

impl Clone for ProbeResult {
    fn clone(&self) -> (res: Self)
        ensures
            res@ == self@,
    {
        ProbeResult {
            name: self.name.clone(),
            endpoint: self.endpoint.clone(),
            start_time: self.start_time,
            start_timestamp: self.start_timestamp,
            round_trip_time: self.round_trip_time,
            status: self.status,
            pre_status: self.pre_status,
            message: self.message.clone(),
            latest_downtime: self.latest_downtime,
            recovery_time: self.recovery_time,
            stat: self.stat.clone(),
        }
    }
}

impl Default for ProbeResult {
    fn default() -> (r: Self)
        ensures
            r@ == spec_default_result(),
    {
        let stat = Stat::default();
        ProbeResult {
            name: String::new(),
            endpoint: String::new(),
            start_time: 0,
            start_timestamp: 0,
            round_trip_time: 0,
            status: Status::Unknown,
            pre_status: Status::Unknown,
            message: String::new(),
            latest_downtime: 0,
            recovery_time: 0,
            stat,
        }
    }
}

/// The notification title of a result: first success, failure, or recovery
/// with the downtime in whole seconds.
pub open spec fn spec_title(m: ResultModel) -> Seq<char> {
    if m.pre_status == Status::Init && m.status == Status::Up {
        "Monitoring "@ + m.name
    } else if m.status != Status::Up {
        m.name + " Failure"@
    } else {
        m.name + " Recovery - ( "@ + dec_digits((m.recovery_time / 1000) as nat) + " Downtime )"@
    }
}

impl ProbeResult {
    pub fn title(&self) -> (r: String)
        ensures
            r@ == spec_title(self@),
    {
        if self.pre_status == Status::Init && self.status == Status::Up {
            let mut t = "Monitoring ".to_owned();
            t.append(self.name.as_str());
            t
        } else if !(self.status == Status::Up) {
            let mut t = self.name.clone();
            t.append(" Failure");
            t
        } else {
            let secs = self.recovery_time / 1000;
            let mut t = self.name.clone();
            t.append(" Recovery - ( ");
            t.append(crate::text::u64_to_string(secs).as_str());
            t.append(" Downtime )");
            t
        }
    }
}

} // verus!

//! Per-probe state deciding whether a Down observation warrants a fresh
//! notification.
//!
//! The reference semantics: during one downtime span, at most `max_times`
//! notifications are sent. The Regular strategy notifies on every qualifying
//! Down observation; Increment lets the spacing between notifications grow
//! linearly with the number already sent, scaled by `factor`; Exponential
//! doubles the spacing each time, scaled by `factor`. A recovery calls
//! `reset`, which starts a fresh span.

use vstd::prelude::*;
use crate::global::{IntervalStrategy, NotificationStrategySettings};

verus! {

/// Strategy parameters plus the running counts of one downtime span:
/// `failed` Down observations seen, `notified` notifications sent, and the
/// observation count `next` at which the next notification fires.
#[derive(Clone, Copy, Debug, PartialEq, Eq, Structural)]
pub struct NotificationStrategyData {
    pub strategy: IntervalStrategy,
    pub factor: u32,
    pub max_times: u32,
    pub notified: u32,
    pub failed: u64,
    pub next: u64,
}

/// Sum capped at the largest representable value.
pub open spec fn spec_add_capped(a: int, b: int) -> int {
    if a + b > u64::MAX {
        u64::MAX as int
    } else {
        a + b
    }
}

fn add_capped(a: u64, b: u64) -> (r: u64)
    ensures
        r as int == spec_add_capped(a as int, b as int),
{
    if a <= u64::MAX - b {
        a + b
    } else {
        u64::MAX
    }
}

/// Observations between one notification and the next, after `notified`
/// notifications have been sent.
pub open spec fn spec_spacing(strategy: IntervalStrategy, factor: u32, notified: u32) -> int {
    match strategy {
        IntervalStrategy::Increment => notified as int * factor as int,
        IntervalStrategy::Exponential => (
        (factor as u64) << (if notified as int - 1 > 32 {
            32u64
        } else if notified as int - 1 < 0 {
            0u64
        } else {
            (notified - 1) as u64
        })) as int,
        _ => 1,
    }
}

/// The state after `reset`: a fresh downtime span.
pub open spec fn spec_reset(d: NotificationStrategyData) -> NotificationStrategyData {
    NotificationStrategyData { notified: 0, failed: 0, next: 1, ..d }
}

/// Whether the Down observation now being recorded is notified.
pub open spec fn spec_need(d: NotificationStrategyData) -> bool {
    &&& d.notified < d.max_times
    &&& spec_add_capped(d.failed as int, 1) >= d.next
}

/// The state after `need_to_send_notification` records one Down observation.
pub open spec fn spec_after_need(d: NotificationStrategyData) -> NotificationStrategyData {
    let failed = spec_add_capped(d.failed as int, 1) as u64;
    if spec_need(d) {
        NotificationStrategyData {
            failed,
            notified: (d.notified + 1) as u32,
            next: spec_add_capped(
                failed as int,
                spec_spacing(d.strategy, d.factor, (d.notified + 1) as u32),
            ) as u64,
            ..d
        }
    } else {
        NotificationStrategyData { failed, ..d }
    }
}

impl NotificationStrategyData {
    /// The parameters are sound and a notification is never owed before the
    /// first observation of a span.
    pub open spec fn wf(self) -> bool {
        &&& self.max_times >= 1
        &&& self.factor >= 1
        &&& self.next >= 1
    }

    /// Fresh state for a probe configured with the given (normalized) policy.
    pub fn new(settings: &NotificationStrategySettings) -> (r: Self)
        requires
            settings.factor >= 1,
            settings.max_times >= 1,
        ensures
            r.strategy == settings.strategy,
            r.factor == settings.factor as u32,
            r.max_times == settings.max_times as u32,
            r == spec_reset(r),
            r.wf(),
    {
        NotificationStrategyData {
            strategy: settings.strategy,
            factor: settings.factor as u32,
            max_times: settings.max_times as u32,
            notified: 0,
            failed: 0,
            next: 1,
        }
    }

    /// Starts a fresh downtime span; called when the status recovers to Up.
    pub fn reset(&mut self)
        ensures
            *final(self) == spec_reset(*old(self)),
            old(self).wf() ==> final(self).wf(),
    {
        self.notified = 0;
        self.failed = 0;
        self.next = 1;
    }

    /// Records one Down observation and says whether it is notified: true
    /// while fewer than `max_times` notifications were sent this span and the
    /// spacing of the strategy is satisfied.
    pub fn need_to_send_notification(&mut self) -> (r: bool)
        ensures
            r == spec_need(*old(self)),
            *final(self) == spec_after_need(*old(self)),
            old(self).wf() ==> final(self).wf(),
    {
        let failed = add_capped(self.failed, 1);
        self.failed = failed;
        if self.notified >= self.max_times {
            return false;
        }
        if failed < self.next {
            return false;
        }
        self.notified = self.notified + 1;
        let spacing: u64 = match self.strategy {
            IntervalStrategy::Increment => {
                let a = self.notified as u64;
                let b = self.factor as u64;
                proof {
                    assert(a as int * b as int <= 0xffffffff * 0xffffffff) by (nonlinear_arith)
                        requires
                            a <= 0xffffffff,
                            b <= 0xffffffff,
                    ;
                }
                a * b
            },
            IntervalStrategy::Exponential => {
                let shift: u64 = if self.notified >= 33 {
                    32
                } else {
                    (self.notified - 1) as u64
                };
                (self.factor as u64) << shift
            },
            _ => 1,
        };
        self.next = add_capped(failed, spacing);
        true
    }
}

impl Default for NotificationStrategyData {
    /// The default policy: Regular, factor 1, at most one notification per
    /// downtime span.
    fn default() -> (r: Self)
        ensures
            r.strategy == IntervalStrategy::Regular,
            r.factor == 1,
            r.max_times == 1,
            r == spec_reset(r),
            r.wf(),
    {
        NotificationStrategyData {
            strategy: IntervalStrategy::Regular,
            factor: 1,
            max_times: 1,
            notified: 0,
            failed: 0,
            next: 1,
        }
    }
}

/// After a recovery resets the strategy state, the very next Down observation
/// is notified.
pub proof fn lemma_reset_enables_notification(d: NotificationStrategyData)
    requires
        d.wf(),
    ensures
        spec_need(spec_reset(d)),
{
}

} // verus!

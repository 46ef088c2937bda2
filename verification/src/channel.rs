//! A named routing point binding probers (producers) to notifiers
//! (consumers): registries with unique names, a bounded ingress queue, and
//! the evaluation and dispatch decision procedure.
//!
//! The evaluation loop itself is the embedding runtime's: it awaits the
//! queue and the stop signal and calls `process_next`; dispatch hands back
//! one task per registered notifier for the runtime to carry out.

use vstd::prelude::*;
use crate::notifier::Notifier;
use crate::prober::Prober;
use crate::result::{ProbeResult, ResultModel, StatModel};
use crate::status::Status;
use crate::strategy::{spec_after_need, spec_need, spec_reset, NotificationStrategyData};
use crate::text::str_eq;

verus! {

/// The ingress queue holds at most this many results.
pub const CHANNEL_CAPACITY: usize = 100;

/// What the decision procedure decided for one result.
#[derive(Clone, Copy, Debug, PartialEq, Eq, Structural)]
pub enum HandleDecision {
    /// The first success after initialization is silent.
    SilentFirstSuccess,
    /// Steady Up and steady Init are silent.
    SilentNoChange,
    /// Down, but the notification strategy holds the alert back.
    SilentStrategyGated,
    /// Fan the result out to the notifiers.
    Dispatch { status_changed: bool },
}

/// The decision for a result with the given prior status, current status and
/// strategy state.
pub open spec fn spec_decide(pre: Status, st: Status, nsd: NotificationStrategyData) -> HandleDecision {
    if pre == Status::Init && st == Status::Up {
        HandleDecision::SilentFirstSuccess
    } else if pre == st && (st == Status::Up || st == Status::Init) {
        HandleDecision::SilentNoChange
    } else {
        let after_reset = if st == Status::Up {
            spec_reset(nsd)
        } else {
            nsd
        };
        if st == Status::Down && !spec_need(after_reset) {
            HandleDecision::SilentStrategyGated
        } else {
            HandleDecision::Dispatch { status_changed: pre != st }
        }
    }
}

/// The strategy state after the decision procedure ran: reset on recovery,
/// one more Down observation counted when the strategy was consulted.
pub open spec fn spec_decide_nsd(pre: Status, st: Status, nsd: NotificationStrategyData) -> NotificationStrategyData {
    if pre == Status::Init && st == Status::Up {
        nsd
    } else if pre == st && (st == Status::Up || st == Status::Init) {
        nsd
    } else {
        let after_reset = if st == Status::Up {
            spec_reset(nsd)
        } else {
            nsd
        };
        if st == Status::Down {
            spec_after_need(after_reset)
        } else {
            after_reset
        }
    }
}

/// Steps one to five of the decision procedure: the silence rules, the
/// recovery reset, and the strategy gate. Mutates only the strategy state of
/// the result.
pub fn decide(r: &mut ProbeResult) -> (d: HandleDecision)
    ensures
        d == spec_decide(
            old(r)@.pre_status,
            old(r)@.status,
            old(r)@.stat.notification_strategy_data,
        ),
        final(r)@ == (ResultModel {
            stat: StatModel {
                notification_strategy_data: spec_decide_nsd(
                    old(r)@.pre_status,
                    old(r)@.status,
                    old(r)@.stat.notification_strategy_data,
                ),
                ..old(r)@.stat
            },
            ..old(r)@
        }),
{
    if r.pre_status == Status::Init && r.status == Status::Up {
        return HandleDecision::SilentFirstSuccess;
    }
    if r.pre_status == r.status && (r.status == Status::Up || r.status == Status::Init) {
        return HandleDecision::SilentNoChange;
    }
    if r.status == Status::Up {
        r.stat.notification_strategy_data.reset();
    }
    if r.status == Status::Down {
        let need = r.stat.notification_strategy_data.need_to_send_notification();
        if !need {
            return HandleDecision::SilentStrategyGated;
        }
    }
    HandleDecision::Dispatch { status_changed: !(r.pre_status == r.status) }
}

/// A recovery that dispatched has reset the strategy state, so the next Down
/// observation is never held back by the strategy: its decision dispatches
/// too.
pub proof fn lemma_recovery_enables_next_down(
    pre: Status,
    nsd: NotificationStrategyData,
    pre2: Status,
)
    requires
        nsd.wf(),
        spec_decide(pre, Status::Up, nsd) is Dispatch,
    ensures
        spec_decide(pre2, Status::Down, spec_decide_nsd(pre, Status::Up, nsd)) is Dispatch,
{
    assert(spec_decide_nsd(pre, Status::Up, nsd) == spec_reset(nsd));
    crate::strategy::lemma_reset_enables_notification(nsd);
}

/// One dispatch for the runtime to carry out: which notifier, and whether
/// only its dry-run line is wanted.
#[derive(Debug)]
pub struct NotifyTask {
    pub name: String,
    pub dry: bool,
}

/// The duplicate-registration warning.
pub open spec fn spec_duplicate_warning(what: Seq<char>, kind: Seq<char>, name: Seq<char>) -> Seq<
    char,
> {
    what + " ["@ + kind + " - "@ + name + "] name is duplicated, ignored!"@
}

fn duplicate_warning(what: &str, kind: &str, name: &str) -> (r: String)
    ensures
        r@ == spec_duplicate_warning(what@, kind@, name@),
{
    let mut line = what.to_owned();
    line.append(" [");
    line.append(kind);
    line.append(" - ");
    line.append(name);
    line.append("] name is duplicated, ignored!");
    line
}

/// A named routing point: probers and notifiers registered under unique
/// names, the bounded ingress queue, and the stop flag.
#[derive(Debug)]
pub struct Channel<P: Prober, N: Notifier> {
    pub name: String,
    pub probers: Vec<P>,
    pub notifiers: Vec<N>,
    pub queue: Vec<ProbeResult>,
    pub stopped: bool,
}

impl<P: Prober, N: Notifier> Channel<P, N> {
    /// Registered names are unique in both registries.
    pub open spec fn wf(&self) -> bool {
        &&& forall|i: int, j: int|
            0 <= i < j < self.probers@.len() ==> (#[trigger] self.probers@[i]).spec_name() != (
            #[trigger] self.probers@[j]).spec_name()
        &&& forall|i: int, j: int|
            0 <= i < j < self.notifiers@.len() ==> (#[trigger] self.notifiers@[i]).spec_name() != (
            #[trigger] self.notifiers@[j]).spec_name()
    }

    /// Whether a prober of that name is registered.
    pub open spec fn spec_has_prober(&self, name: Seq<char>) -> bool {
        exists|i: int|
            0 <= i < self.probers@.len() && (#[trigger] self.probers@[i]).spec_name() == name
    }

    /// Whether a notifier of that name is registered.
    pub open spec fn spec_has_notifier(&self, name: Seq<char>) -> bool {
        exists|i: int|
            0 <= i < self.notifiers@.len() && (#[trigger] self.notifiers@[i]).spec_name() == name
    }

    /// An empty channel: no registrations, an empty queue, not stopped.
    pub fn new(name: &str) -> (r: Self)
        ensures
            r.name@ == name@,
            r.probers@.len() == 0,
            r.notifiers@.len() == 0,
            r.queue@.len() == 0,
            r.stopped == false,
            r.wf(),
    {
        Channel {
            name: name.to_owned(),
            probers: Vec::new(),
            notifiers: Vec::new(),
            queue: Vec::new(),
            stopped: false,
        }
    }

    /// Registers a prober; a name already present is left as it was, and the
    /// warning to log is handed back. The registry grows exactly for fresh
    /// names.
    pub fn add_prober(&mut self, p: P) -> (warned: Option<String>)
        ensures
            warned is Some <==> old(self).spec_has_prober(p.spec_name()),
            warned matches Some(line) ==> line@ == spec_duplicate_warning(
                "Prober"@,
                p.spec_kind(),
                p.spec_name(),
            ) && *final(self) == *old(self),
            warned is None ==> final(self).probers@ == old(self).probers@.push(p),
            final(self).probers@.len() == old(self).probers@.len() + (if old(self).spec_has_prober(
                p.spec_name(),
            ) {
                0int
            } else {
                1int
            }),
            forall|nm: Seq<char>|
                #[trigger] final(self).spec_has_prober(nm) <==> (old(self).spec_has_prober(nm)
                    || nm == p.spec_name()),
            old(self).wf() ==> final(self).wf(),
            final(self).name == old(self).name,
            final(self).notifiers == old(self).notifiers,
            final(self).queue == old(self).queue,
            final(self).stopped == old(self).stopped,
    {
        let n = self.probers.len();
        let mut i: usize = 0;
        while i < n
            invariant
                n == self.probers.len(),
                i <= n,
                forall|j: int| 0 <= j < i ==> (#[trigger] self.probers@[j]).spec_name() != p.spec_name(),
            decreases n - i,
        {
            if str_eq(self.probers[i].name(), p.name()) {
                let line = duplicate_warning("Prober", p.kind(), p.name());
                return Some(line);
            }
            i = i + 1;
        }
        self.probers.push(p);
        proof {
            assert(self.probers@[old(self).probers@.len() as int] == p);
            assert forall|nm: Seq<char>| #[trigger]
                self.spec_has_prober(nm) implies (old(self).spec_has_prober(nm) || nm
                == p.spec_name()) by {
                let w = choose|w: int|
                    0 <= w < self.probers@.len() && (#[trigger] self.probers@[w]).spec_name() == nm;
                if w < old(self).probers@.len() {
                    assert(old(self).probers@[w].spec_name() == nm);
                }
            }
            assert forall|nm: Seq<char>|
                (old(self).spec_has_prober(nm) || nm == p.spec_name()) implies #[trigger]
                self.spec_has_prober(nm) by {
                if old(self).spec_has_prober(nm) {
                    let w = choose|w: int|
                        0 <= w < old(self).probers@.len() && (#[trigger] old(
                            self,
                        ).probers@[w]).spec_name() == nm;
                    assert(self.probers@[w].spec_name() == nm);
                } else {
                    assert(self.probers@[old(self).probers@.len() as int].spec_name() == nm);
                }
            }
        }
        None
    }

    /// Registers each prober in turn, handing back the duplicate warnings.
    pub fn add_probers(&mut self, probers: Vec<P>) -> (warnings: Vec<String>)
        ensures
            forall|nm: Seq<char>|
                #[trigger] final(self).spec_has_prober(nm) <==> (old(self).spec_has_prober(nm)
                    || exists|j: int|
                    0 <= j < probers@.len() && (#[trigger] probers@[j]).spec_name() == nm),
            old(self).wf() ==> final(self).wf(),
            final(self).name == old(self).name,
            final(self).notifiers == old(self).notifiers,
            final(self).queue == old(self).queue,
            final(self).stopped == old(self).stopped,
    {
        let mut warnings: Vec<String> = Vec::new();
        let n = probers.len();
        let mut i: usize = 0;
        while i < n
            invariant
                n == probers.len(),
                i <= n,
                old(self).wf() ==> self.wf(),
                self.name == old(self).name,
                self.notifiers == old(self).notifiers,
                self.queue == old(self).queue,
                self.stopped == old(self).stopped,
                forall|nm: Seq<char>|
                    #[trigger] self.spec_has_prober(nm) <==> (old(self).spec_has_prober(nm)
                        || exists|j: int|
                        0 <= j < i && (#[trigger] probers@[j]).spec_name() == nm),
            decreases n - i,
        {
            let w = self.add_prober(probers[i].duplicate());
            match w {
                Some(line) => warnings.push(line),
                None => (),
            }
            i = i + 1;
        }
        warnings
    }

    /// Looks a prober up by name.
    pub fn get_prober(&self, name: &str) -> (r: Option<&P>)
        ensures
            r is Some <==> self.spec_has_prober(name@),
            r matches Some(p) ==> p.spec_name() == name@ && exists|i: int|
                0 <= i < self.probers@.len() && (#[trigger] self.probers@[i]) == *p,
    {
        let n = self.probers.len();
        let mut i: usize = 0;
        while i < n
            invariant
                n == self.probers.len(),
                i <= n,
                forall|j: int| 0 <= j < i ==> (#[trigger] self.probers@[j]).spec_name() != name@,
            decreases n - i,
        {
            if str_eq(self.probers[i].name(), name) {
                return Some(&self.probers[i]);
            }
            i = i + 1;
        }
        None
    }

    /// Registers a notifier; a name already present is left as it was, and
    /// the warning to log is handed back.
    pub fn add_notifier(&mut self, nf: N) -> (warned: Option<String>)
        ensures
            warned is Some <==> old(self).spec_has_notifier(nf.spec_name()),
            warned matches Some(line) ==> line@ == spec_duplicate_warning(
                "Notifier"@,
                nf.spec_kind(),
                nf.spec_name(),
            ) && *final(self) == *old(self),
            warned is None ==> final(self).notifiers@ == old(self).notifiers@.push(nf),
            final(self).notifiers@.len() == old(self).notifiers@.len() + (if old(
                self,
            ).spec_has_notifier(nf.spec_name()) {
                0int
            } else {
                1int
            }),
            forall|nm: Seq<char>|
                #[trigger] final(self).spec_has_notifier(nm) <==> (old(self).spec_has_notifier(nm)
                    || nm == nf.spec_name()),
            old(self).wf() ==> final(self).wf(),
            final(self).name == old(self).name,
            final(self).probers == old(self).probers,
            final(self).queue == old(self).queue,
            final(self).stopped == old(self).stopped,
    {
        let n = self.notifiers.len();
        let mut i: usize = 0;
        while i < n
            invariant
                n == self.notifiers.len(),
                i <= n,
                forall|j: int|
                    0 <= j < i ==> (#[trigger] self.notifiers@[j]).spec_name() != nf.spec_name(),
            decreases n - i,
        {
            if str_eq(self.notifiers[i].name(), nf.name()) {
                let line = duplicate_warning("Notifier", nf.kind(), nf.name());
                return Some(line);
            }
            i = i + 1;
        }
        self.notifiers.push(nf);
        proof {
            assert(self.notifiers@[old(self).notifiers@.len() as int] == nf);
            assert forall|nm: Seq<char>| #[trigger]
                self.spec_has_notifier(nm) implies (old(self).spec_has_notifier(nm) || nm
                == nf.spec_name()) by {
                let w = choose|w: int|
                    0 <= w < self.notifiers@.len() && (#[trigger] self.notifiers@[w]).spec_name()
                        == nm;
                if w < old(self).notifiers@.len() {
                    assert(old(self).notifiers@[w].spec_name() == nm);
                }
            }
            assert forall|nm: Seq<char>|
                (old(self).spec_has_notifier(nm) || nm == nf.spec_name()) implies #[trigger]
                self.spec_has_notifier(nm) by {
                if old(self).spec_has_notifier(nm) {
                    let w = choose|w: int|
                        0 <= w < old(self).notifiers@.len() && (#[trigger] old(
                            self,
                        ).notifiers@[w]).spec_name() == nm;
                    assert(self.notifiers@[w].spec_name() == nm);
                } else {
                    assert(self.notifiers@[old(self).notifiers@.len() as int].spec_name() == nm);
                }
            }
        }
        None
    }

    /// Registers each notifier in turn, handing back the duplicate warnings.
    pub fn add_notifiers(&mut self, notifiers: Vec<N>) -> (warnings: Vec<String>)
        ensures
            forall|nm: Seq<char>|
                #[trigger] final(self).spec_has_notifier(nm) <==> (old(self).spec_has_notifier(nm)
                    || exists|j: int|
                    0 <= j < notifiers@.len() && (#[trigger] notifiers@[j]).spec_name() == nm),
            old(self).wf() ==> final(self).wf(),
            final(self).name == old(self).name,
            final(self).probers == old(self).probers,
            final(self).queue == old(self).queue,
            final(self).stopped == old(self).stopped,
    {
        let mut warnings: Vec<String> = Vec::new();
        let n = notifiers.len();
        let mut i: usize = 0;
        while i < n
            invariant
                n == notifiers.len(),
                i <= n,
                old(self).wf() ==> self.wf(),
                self.name == old(self).name,
                self.probers == old(self).probers,
                self.queue == old(self).queue,
                self.stopped == old(self).stopped,
                forall|nm: Seq<char>|
                    #[trigger] self.spec_has_notifier(nm) <==> (old(self).spec_has_notifier(nm)
                        || exists|j: int|
                        0 <= j < i && (#[trigger] notifiers@[j]).spec_name() == nm),
            decreases n - i,
        {
            let w = self.add_notifier(notifiers[i].duplicate());
            match w {
                Some(line) => warnings.push(line),
                None => (),
            }
            i = i + 1;
        }
        warnings
    }

    /// Looks a notifier up by name.
    pub fn get_notifier(&self, name: &str) -> (r: Option<&N>)
        ensures
            r is Some <==> self.spec_has_notifier(name@),
            r matches Some(nf) ==> nf.spec_name() == name@ && exists|i: int|
                0 <= i < self.notifiers@.len() && (#[trigger] self.notifiers@[i]) == *nf,
    {
        let n = self.notifiers.len();
        let mut i: usize = 0;
        while i < n
            invariant
                n == self.notifiers.len(),
                i <= n,
                forall|j: int| 0 <= j < i ==> (#[trigger] self.notifiers@[j]).spec_name() != name@,
            decreases n - i,
        {
            if str_eq(self.notifiers[i].name(), name) {
                return Some(&self.notifiers[i]);
            }
            i = i + 1;
        }
        None
    }

    /// Raises the stop signal.
    pub fn stop(&mut self)
        ensures
            final(self).stopped == true,
            final(self).name == old(self).name,
            final(self).probers == old(self).probers,
            final(self).notifiers == old(self).notifiers,
            final(self).queue == old(self).queue,
    {
        self.stopped = true;
    }

    /// Best-effort publish onto the ingress queue: accepted exactly while the
    /// channel is running and the queue is below capacity; otherwise the
    /// result is dropped and the caller logs the overflow.
    pub fn send(&mut self, result: ProbeResult) -> (accepted: bool)
        ensures
            accepted == (!old(self).stopped && old(self).queue@.len() < CHANNEL_CAPACITY),
            accepted ==> final(self).queue@ == old(self).queue@.push(result),
            !accepted ==> *final(self) == *old(self),
            final(self).name == old(self).name,
            final(self).probers == old(self).probers,
            final(self).notifiers == old(self).notifiers,
            final(self).stopped == old(self).stopped,
    {
        if !self.stopped && self.queue.len() < CHANNEL_CAPACITY {
            self.queue.push(result);
            true
        } else {
            false
        }
    }

    /// Runs the decision procedure on one result and, when it dispatches,
    /// hands back one task per registered notifier; under the process-wide
    /// dry flag every task asks only for the dry-run line, so nothing is
    /// sent.
    pub fn handle_result(&self, r: &mut ProbeResult, dry_notify: bool) -> (tasks: Vec<NotifyTask>)
        ensures
            ({
                let d = spec_decide(
                    old(r)@.pre_status,
                    old(r)@.status,
                    old(r)@.stat.notification_strategy_data,
                );
                &&& (d is Dispatch ==> tasks@.len() == self.notifiers@.len() && forall|i: int|
                    0 <= i < tasks@.len() ==> (#[trigger] tasks@[i]).name@
                        == self.notifiers@[i].spec_name() && tasks@[i].dry == dry_notify)
                &&& (!(d is Dispatch) ==> tasks@.len() == 0)
            }),
            final(r)@ == (ResultModel {
                stat: StatModel {
                    notification_strategy_data: spec_decide_nsd(
                        old(r)@.pre_status,
                        old(r)@.status,
                        old(r)@.stat.notification_strategy_data,
                    ),
                    ..old(r)@.stat
                },
                ..old(r)@
            }),
            old(r)@.pre_status == Status::Init && old(r)@.status == Status::Up ==> tasks@.len()
                == 0,
            old(r)@.pre_status == old(r)@.status && (old(r)@.status == Status::Up || old(r)@.status
                == Status::Init) ==> tasks@.len() == 0,
            forall|i: int| 0 <= i < tasks@.len() ==> (#[trigger] tasks@[i]).dry == dry_notify,
    {
        let d = decide(r);
        let dispatch = match d {
            HandleDecision::Dispatch { status_changed: _ } => true,
            _ => false,
        };
        let mut tasks: Vec<NotifyTask> = Vec::new();
        if dispatch {
            let n = self.notifiers.len();
            let mut i: usize = 0;
            while i < n
                invariant
                    n == self.notifiers.len(),
                    i <= n,
                    tasks@.len() == i as nat,
                    forall|j: int|
                        0 <= j < i ==> (#[trigger] tasks@[j]).name@
                            == self.notifiers@[j].spec_name() && tasks@[j].dry == dry_notify,
                decreases n - i,
            {
                tasks.push(NotifyTask { name: self.notifiers[i].name().to_owned(), dry: dry_notify });
                i = i + 1;
            }
        }
        tasks
    }

    /// One turn of the evaluation loop: takes the oldest queued result, runs
    /// the decision procedure, and hands back the result together with the
    /// dispatch tasks; nothing when the queue is empty.
    pub fn process_next(&mut self, dry_notify: bool) -> (r: Option<(ProbeResult, Vec<NotifyTask>)>)
        ensures
            r is None <==> old(self).queue@.len() == 0,
            r is None ==> *final(self) == *old(self),
            r matches Some((res, tasks)) ==> {
                &&& final(self).queue@ == old(self).queue@.subrange(
                    1,
                    old(self).queue@.len() as int,
                )
                &&& res@ == (ResultModel {
                    stat: StatModel {
                        notification_strategy_data: spec_decide_nsd(
                            old(self).queue@[0]@.pre_status,
                            old(self).queue@[0]@.status,
                            old(self).queue@[0]@.stat.notification_strategy_data,
                        ),
                        ..old(self).queue@[0]@.stat
                    },
                    ..old(self).queue@[0]@
                })
                &&& ({
                    let d = spec_decide(
                        old(self).queue@[0]@.pre_status,
                        old(self).queue@[0]@.status,
                        old(self).queue@[0]@.stat.notification_strategy_data,
                    );
                    &&& (d is Dispatch ==> tasks@.len() == final(self).notifiers@.len() && forall|
                        i: int,
                    |
                        0 <= i < tasks@.len() ==> (#[trigger] tasks@[i]).name@
                            == final(self).notifiers@[i].spec_name() && tasks@[i].dry == dry_notify)
                    &&& (!(d is Dispatch) ==> tasks@.len() == 0)
                })
                &&& forall|i: int|
                    0 <= i < tasks@.len() ==> (#[trigger] tasks@[i]).dry == dry_notify
            },
            final(self).name == old(self).name,
            final(self).probers == old(self).probers,
            final(self).notifiers == old(self).notifiers,
            final(self).stopped == old(self).stopped,
    {
        if self.queue.len() == 0 {
            return None;
        }
        let mut res = self.queue.remove(0);
        proof {
            assert(self.queue@ =~= old(self).queue@.subrange(1, old(self).queue@.len() as int));
        }
        let tasks = self.handle_result(&mut res, dry_notify);
        Some((res, tasks))
    }
}

/// How often a name occurs among registered probers.
pub open spec fn spec_prober_count<P: Prober>(s: Seq<P>, name: Seq<char>) -> int
    decreases s.len(),
{
    if s.len() == 0 {
        0
    } else {
        spec_prober_count(s.drop_last(), name) + (if s.last().spec_name() == name {
            1int
        } else {
            0int
        })
    }
}

proof fn lemma_prober_count_zero<P: Prober>(s: Seq<P>, name: Seq<char>)
    requires
        forall|i: int| 0 <= i < s.len() ==> (#[trigger] s[i]).spec_name() != name,
    ensures
        spec_prober_count(s, name) == 0,
    decreases s.len(),
{
    if s.len() > 0 {
        lemma_prober_count_zero(s.drop_last(), name);
    }
}

/// In a registry of unique names a present name occurs exactly once.
pub proof fn lemma_unique_prober_count<P: Prober>(s: Seq<P>, name: Seq<char>)
    requires
        forall|i: int, j: int|
            0 <= i < j < s.len() ==> (#[trigger] s[i]).spec_name() != (#[trigger] s[j]).spec_name(),
        exists|i: int| 0 <= i < s.len() && (#[trigger] s[i]).spec_name() == name,
    ensures
        spec_prober_count(s, name) == 1,
    decreases s.len(),
{
    let last = s.len() - 1;
    if s[last].spec_name() == name {
        assert(forall|i: int|
            0 <= i < s.drop_last().len() ==> (#[trigger] s.drop_last()[i]).spec_name() != name);
        lemma_prober_count_zero(s.drop_last(), name);
    } else {
        let w = choose|i: int| 0 <= i < s.len() && (#[trigger] s[i]).spec_name() == name;
        assert(s.drop_last()[w] == s[w]);
        lemma_unique_prober_count(s.drop_last(), name);
    }
}

/// How often a name occurs among registered notifiers.
pub open spec fn spec_notifier_count<N: Notifier>(s: Seq<N>, name: Seq<char>) -> int
    decreases s.len(),
{
    if s.len() == 0 {
        0
    } else {
        spec_notifier_count(s.drop_last(), name) + (if s.last().spec_name() == name {
            1int
        } else {
            0int
        })
    }
}

proof fn lemma_notifier_count_zero<N: Notifier>(s: Seq<N>, name: Seq<char>)
    requires
        forall|i: int| 0 <= i < s.len() ==> (#[trigger] s[i]).spec_name() != name,
    ensures
        spec_notifier_count(s, name) == 0,
    decreases s.len(),
{
    if s.len() > 0 {
        lemma_notifier_count_zero(s.drop_last(), name);
    }
}

/// In a registry of unique names a present name occurs exactly once.
pub proof fn lemma_unique_notifier_count<N: Notifier>(s: Seq<N>, name: Seq<char>)
    requires
        forall|i: int, j: int|
            0 <= i < j < s.len() ==> (#[trigger] s[i]).spec_name() != (#[trigger] s[j]).spec_name(),
        exists|i: int| 0 <= i < s.len() && (#[trigger] s[i]).spec_name() == name,
    ensures
        spec_notifier_count(s, name) == 1,
    decreases s.len(),
{
    let last = s.len() - 1;
    if s[last].spec_name() == name {
        assert(forall|i: int|
            0 <= i < s.drop_last().len() ==> (#[trigger] s.drop_last()[i]).spec_name() != name);
        lemma_notifier_count_zero(s.drop_last(), name);
    } else {
        let w = choose|i: int| 0 <= i < s.len() && (#[trigger] s[i]).spec_name() == name;
        assert(s.drop_last()[w] == s[w]);
        lemma_unique_notifier_count(s.drop_last(), name);
    }
}

} // verus!

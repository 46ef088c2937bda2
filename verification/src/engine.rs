//! Configures the probers and notifiers against the global settings and
//! excludes the unusable ones. The scheduler loop that drives the configured
//! probers is the embedding runtime's: probe, route the result into every
//! named channel, sleep for the probe's interval, repeat.

use vstd::prelude::*;

use crate::conf::Settings;
use crate::global::{NotifierSetting, ProbeSettings};
use crate::notifier::Notifier;
use crate::prober::Prober;
use crate::result::ProbeResult;
use crate::status::Status;

verus! {

/// The positions, in order, of the probers whose configuration succeeds.
pub open spec fn spec_ok_prober_indices<P: Prober>(s: Seq<P>, gs: ProbeSettings) -> Seq<int>
    decreases s.len(),
{
    if s.len() == 0 {
        Seq::<int>::empty()
    } else {
        let rest = spec_ok_prober_indices(s.drop_last(), gs);
        if s.last().spec_config_ok(gs) {
            rest.push(s.len() - 1)
        } else {
            rest
        }
    }
}

/// The positions, in order, of the probers whose configuration fails.
pub open spec fn spec_failed_prober_indices<P: Prober>(s: Seq<P>, gs: ProbeSettings) -> Seq<int>
    decreases s.len(),
{
    if s.len() == 0 {
        Seq::<int>::empty()
    } else {
        let rest = spec_failed_prober_indices(s.drop_last(), gs);
        if s.last().spec_config_ok(gs) {
            rest
        } else {
            rest.push(s.len() - 1)
        }
    }
}

proof fn lemma_prober_indices_bounds<P: Prober>(s: Seq<P>, gs: ProbeSettings)
    ensures
        forall|i: int|
            0 <= i < spec_ok_prober_indices(s, gs).len() ==> 0 <= #[trigger] spec_ok_prober_indices(
                s,
                gs,
            )[i] < s.len(),
        forall|i: int|
            0 <= i < spec_failed_prober_indices(s, gs).len() ==> 0
                <= #[trigger] spec_failed_prober_indices(s, gs)[i] < s.len(),
    decreases s.len(),
{
    if s.len() > 0 {
        lemma_prober_indices_bounds(s.drop_last(), gs);
        let rest_ok = spec_ok_prober_indices(s.drop_last(), gs);
        let rest_fail = spec_failed_prober_indices(s.drop_last(), gs);
        assert forall|i: int|
            0 <= i < spec_ok_prober_indices(s, gs).len() implies 0
            <= #[trigger] spec_ok_prober_indices(s, gs)[i] < s.len() by {
            if i < rest_ok.len() {
                assert(spec_ok_prober_indices(s, gs)[i] == rest_ok[i]);
            }
        }
        assert forall|i: int|
            0 <= i < spec_failed_prober_indices(s, gs).len() implies 0
            <= #[trigger] spec_failed_prober_indices(s, gs)[i] < s.len() by {
            if i < rest_fail.len() {
                assert(spec_failed_prober_indices(s, gs)[i] == rest_fail[i]);
            }
        }
    }
}

/// The ERROR line of one failing prober.
pub open spec fn spec_probe_config_error_line(
    kind: Seq<char>,
    name: Seq<char>,
    err: Seq<char>,
) -> Seq<char> {
    "Bad Probe Configuration for prober "@ + kind + " "@ + name + ": "@ + err
}

/// Configures every prober against the global defaults. The run set keeps
/// exactly the probers whose configuration succeeded, in their input order
/// and in their configured state. A failing prober is excluded: it is handed
/// back with its result marked `Bad Configuration`, beside the ERROR line to
/// log for it.
pub fn config_probers<P: Prober>(probers: &mut Vec<P>, gs: &Settings) -> (r: (Vec<String>, Vec<P>))
    ensures
        final(probers)@.len() == spec_ok_prober_indices(old(probers)@, gs.probe).len(),
        forall|i: int|
            0 <= i < final(probers)@.len() ==> P::spec_config_rel(
                old(probers)@[spec_ok_prober_indices(old(probers)@, gs.probe)[i]],
                #[trigger] final(probers)@[i],
                gs.probe,
            ),
        forall|i: int|
            0 <= i < final(probers)@.len() ==> (#[trigger] final(probers)@[i]).spec_channels().len()
                > 0,
        r.0@.len() == spec_failed_prober_indices(old(probers)@, gs.probe).len(),
        r.1@.len() == spec_failed_prober_indices(old(probers)@, gs.probe).len(),
        forall|i: int|
            0 <= i < r.1@.len() ==> {
                let source = old(probers)@[spec_failed_prober_indices(old(probers)@, gs.probe)[i]];
                &&& (#[trigger] r.1@[i]).spec_name() == source.spec_name()
                &&& r.1@[i].spec_kind() == source.spec_kind()
                &&& r.1@[i].spec_result().status == Status::Bad
                &&& exists|e: Seq<char>|
                    r.0@[i]@ == #[trigger] spec_probe_config_error_line(
                        source.spec_kind(),
                        source.spec_name(),
                        e,
                    ) && r.1@[i].spec_result().message == "Bad Configuration: "@ + e
            },
{
    let mut valid: Vec<P> = Vec::new();
    let mut failed: Vec<P> = Vec::new();
    let mut errors: Vec<String> = Vec::new();
    let ghost orig = probers@;
    let ghost gsp = gs.probe;
    while probers.len() > 0
        invariant
            orig == old(probers)@,
            gsp == gs.probe,
            orig.len() == probers@.len() + valid@.len() + errors@.len(),
            probers@ == orig.subrange(orig.len() - probers@.len(), orig.len() as int),
            valid@.len() == spec_ok_prober_indices(
                orig.take(orig.len() - probers@.len()),
                gsp,
            ).len(),
            forall|i: int|
                0 <= i < valid@.len() ==> P::spec_config_rel(
                    orig[spec_ok_prober_indices(orig.take(orig.len() - probers@.len()), gsp)[i]],
                    #[trigger] valid@[i],
                    gsp,
                ),
            forall|i: int|
                0 <= i < valid@.len() ==> (#[trigger] valid@[i]).spec_channels().len() > 0,
            errors@.len() == spec_failed_prober_indices(
                orig.take(orig.len() - probers@.len()),
                gsp,
            ).len(),
            failed@.len() == errors@.len(),
            forall|i: int|
                0 <= i < failed@.len() ==> {
                    let source = orig[spec_failed_prober_indices(
                        orig.take(orig.len() - probers@.len()),
                        gsp,
                    )[i]];
                    &&& (#[trigger] failed@[i]).spec_name() == source.spec_name()
                    &&& failed@[i].spec_kind() == source.spec_kind()
                    &&& failed@[i].spec_result().status == Status::Bad
                    &&& exists|e: Seq<char>|
                        errors@[i]@ == #[trigger] spec_probe_config_error_line(
                            source.spec_kind(),
                            source.spec_name(),
                            e,
                        ) && failed@[i].spec_result().message == "Bad Configuration: "@ + e
                },
        decreases probers@.len(),
    {
        let ghost k = orig.len() - probers@.len();
        proof {
            assert(probers@[0] == orig.subrange(k, orig.len() as int)[0]);
            assert(probers@[0] == orig[k]);
            assert(orig.take(k + 1).drop_last() =~= orig.take(k));
            assert(orig.take(k + 1).last() == orig[k]);
            lemma_prober_indices_bounds(orig.take(k), gsp);
        }
        let mut p = probers.remove(0);
        proof {
            assert(p == orig[k]);
            assert(probers@ =~= orig.subrange(orig.len() - probers@.len(), orig.len() as int));
        }
        let configured = p.config(&gs.probe);
        match configured {
            Ok(_) => {
                proof {
                    assert(spec_ok_prober_indices(orig.take(k + 1), gsp) == spec_ok_prober_indices(
                        orig.take(k),
                        gsp,
                    ).push(k));
                    assert(spec_failed_prober_indices(orig.take(k + 1), gsp)
                        == spec_failed_prober_indices(orig.take(k), gsp));
                }
                valid.push(p);
            },
            Err(err) => {
                proof {
                    assert(spec_failed_prober_indices(orig.take(k + 1), gsp)
                        == spec_failed_prober_indices(orig.take(k), gsp).push(k));
                    assert(spec_ok_prober_indices(orig.take(k + 1), gsp) == spec_ok_prober_indices(
                        orig.take(k),
                        gsp,
                    ));
                }
                let mut message = "Bad Configuration: ".to_owned();
                message.append(err.as_str());
                let mut line = "Bad Probe Configuration for prober ".to_owned();
                line.append(p.kind());
                line.append(" ");
                line.append(p.name());
                line.append(": ");
                line.append(err.as_str());
                let ghost err_view = err@;
                let result = p.result();
                result.status = Status::Bad;
                result.message = message;
                proof {
                    assert(p.spec_result().status == Status::Bad);
                    assert(p.spec_result().message == "Bad Configuration: "@ + err_view);
                    assert(line@ == spec_probe_config_error_line(
                        orig[k].spec_kind(),
                        orig[k].spec_name(),
                        err_view,
                    ));
                }
                errors.push(line);
                failed.push(p);
            },
        }
    }
    let ghost vsnap = valid@;
    *probers = valid;
    proof {
        assert(orig.take(orig.len() as int) =~= orig);
        assert(probers@ == vsnap);
    }
    (errors, failed)
}

/// The positions, in order, of the notifiers whose configuration succeeds.
pub open spec fn spec_ok_notifier_indices<N: Notifier>(s: Seq<N>, gs: NotifierSetting) -> Seq<int>
    decreases s.len(),
{
    if s.len() == 0 {
        Seq::<int>::empty()
    } else {
        let rest = spec_ok_notifier_indices(s.drop_last(), gs);
        if s.last().spec_config_ok(gs) {
            rest.push(s.len() - 1)
        } else {
            rest
        }
    }
}

/// The positions, in order, of the notifiers whose configuration fails.
pub open spec fn spec_failed_notifier_indices<N: Notifier>(
    s: Seq<N>,
    gs: NotifierSetting,
) -> Seq<int>
    decreases s.len(),
{
    if s.len() == 0 {
        Seq::<int>::empty()
    } else {
        let rest = spec_failed_notifier_indices(s.drop_last(), gs);
        if s.last().spec_config_ok(gs) {
            rest
        } else {
            rest.push(s.len() - 1)
        }
    }
}

proof fn lemma_notifier_indices_bounds<N: Notifier>(s: Seq<N>, gs: NotifierSetting)
    ensures
        forall|i: int|
            0 <= i < spec_ok_notifier_indices(s, gs).len() ==> 0
                <= #[trigger] spec_ok_notifier_indices(s, gs)[i] < s.len(),
        forall|i: int|
            0 <= i < spec_failed_notifier_indices(s, gs).len() ==> 0
                <= #[trigger] spec_failed_notifier_indices(s, gs)[i] < s.len(),
    decreases s.len(),
{
    if s.len() > 0 {
        lemma_notifier_indices_bounds(s.drop_last(), gs);
        let rest_ok = spec_ok_notifier_indices(s.drop_last(), gs);
        let rest_fail = spec_failed_notifier_indices(s.drop_last(), gs);
        assert forall|i: int|
            0 <= i < spec_ok_notifier_indices(s, gs).len() implies 0
            <= #[trigger] spec_ok_notifier_indices(s, gs)[i] < s.len() by {
            if i < rest_ok.len() {
                assert(spec_ok_notifier_indices(s, gs)[i] == rest_ok[i]);
            }
        }
        assert forall|i: int|
            0 <= i < spec_failed_notifier_indices(s, gs).len() implies 0
            <= #[trigger] spec_failed_notifier_indices(s, gs)[i] < s.len() by {
            if i < rest_fail.len() {
                assert(spec_failed_notifier_indices(s, gs)[i] == rest_fail[i]);
            }
        }
    }
}

/// The ERROR line of one failing notifier; its kind is whatever configuration
/// left bound (the log kind binds a default while configuring).
pub open spec fn spec_notify_config_error_line(
    kind: Seq<char>,
    name: Seq<char>,
    err: Seq<char>,
) -> Seq<char> {
    "Bad Notify Configuration for notifier "@ + kind + " "@ + name + ": "@ + err
}

/// Configures every notifier against the global defaults. The set keeps
/// exactly the notifiers whose configuration succeeded, in their input order
/// and in their configured state. A failing notifier is excluded and handed
/// back beside the ERROR line to log for it.
pub fn config_notifiers<N: Notifier>(notifiers: &mut Vec<N>, gs: &Settings) -> (r: (
    Vec<String>,
    Vec<N>,
))
    ensures
        final(notifiers)@.len() == spec_ok_notifier_indices(old(notifiers)@, gs.notify).len(),
        forall|i: int|
            0 <= i < final(notifiers)@.len() ==> N::spec_config_rel(
                old(notifiers)@[spec_ok_notifier_indices(old(notifiers)@, gs.notify)[i]],
                #[trigger] final(notifiers)@[i],
                gs.notify,
            ),
        forall|i: int|
            0 <= i < final(notifiers)@.len() ==> (#[trigger] final(
                notifiers)@[i]).spec_channels().len() > 0,
        r.0@.len() == spec_failed_notifier_indices(old(notifiers)@, gs.notify).len(),
        r.1@.len() == spec_failed_notifier_indices(old(notifiers)@, gs.notify).len(),
        forall|i: int|
            0 <= i < r.1@.len() ==> {
                let source = old(notifiers)@[spec_failed_notifier_indices(
                    old(notifiers)@,
                    gs.notify,
                )[i]];
                &&& N::spec_config_rel(source, #[trigger] r.1@[i], gs.notify)
                &&& r.1@[i].spec_name() == source.spec_name()
                &&& exists|e: Seq<char>|
                    r.0@[i]@ == #[trigger] spec_notify_config_error_line(
                        r.1@[i].spec_kind(),
                        source.spec_name(),
                        e,
                    )
            },
{
    let mut valid: Vec<N> = Vec::new();
    let mut failed: Vec<N> = Vec::new();
    let mut errors: Vec<String> = Vec::new();
    let ghost orig = notifiers@;
    let ghost gsn = gs.notify;
    while notifiers.len() > 0
        invariant
            orig == old(notifiers)@,
            gsn == gs.notify,
            orig.len() == notifiers@.len() + valid@.len() + errors@.len(),
            notifiers@ == orig.subrange(orig.len() - notifiers@.len(), orig.len() as int),
            valid@.len() == spec_ok_notifier_indices(
                orig.take(orig.len() - notifiers@.len()),
                gsn,
            ).len(),
            forall|i: int|
                0 <= i < valid@.len() ==> N::spec_config_rel(
                    orig[spec_ok_notifier_indices(orig.take(orig.len() - notifiers@.len()), gsn)[i]],
                    #[trigger] valid@[i],
                    gsn,
                ),
            forall|i: int|
                0 <= i < valid@.len() ==> (#[trigger] valid@[i]).spec_channels().len() > 0,
            errors@.len() == spec_failed_notifier_indices(
                orig.take(orig.len() - notifiers@.len()),
                gsn,
            ).len(),
            failed@.len() == errors@.len(),
            forall|i: int|
                0 <= i < failed@.len() ==> {
                    let source = orig[spec_failed_notifier_indices(
                        orig.take(orig.len() - notifiers@.len()),
                        gsn,
                    )[i]];
                    &&& N::spec_config_rel(source, #[trigger] failed@[i], gsn)
                    &&& failed@[i].spec_name() == source.spec_name()
                    &&& exists|e: Seq<char>|
                        errors@[i]@ == #[trigger] spec_notify_config_error_line(
                            failed@[i].spec_kind(),
                            source.spec_name(),
                            e,
                        )
                },
        decreases notifiers@.len(),
    {
        let ghost k = orig.len() - notifiers@.len();
        proof {
            assert(notifiers@[0] == orig.subrange(k, orig.len() as int)[0]);
            assert(notifiers@[0] == orig[k]);
            assert(orig.take(k + 1).drop_last() =~= orig.take(k));
            assert(orig.take(k + 1).last() == orig[k]);
            lemma_notifier_indices_bounds(orig.take(k), gsn);
        }
        let mut nf = notifiers.remove(0);
        proof {
            assert(nf == orig[k]);
            assert(notifiers@ =~= orig.subrange(orig.len() - notifiers@.len(), orig.len() as int));
        }
        let configured = nf.config(&gs.notify);
        match configured {
            Ok(_) => {
                proof {
                    assert(spec_ok_notifier_indices(orig.take(k + 1), gsn)
                        == spec_ok_notifier_indices(orig.take(k), gsn).push(k));
                    assert(spec_failed_notifier_indices(orig.take(k + 1), gsn)
                        == spec_failed_notifier_indices(orig.take(k), gsn));
                }
                valid.push(nf);
            },
            Err(err) => {
                proof {
                    assert(spec_failed_notifier_indices(orig.take(k + 1), gsn)
                        == spec_failed_notifier_indices(orig.take(k), gsn).push(k));
                    assert(spec_ok_notifier_indices(orig.take(k + 1), gsn)
                        == spec_ok_notifier_indices(orig.take(k), gsn));
                }
                let mut line = "Bad Notify Configuration for notifier ".to_owned();
                line.append(nf.kind());
                line.append(" ");
                line.append(nf.name());
                line.append(": ");
                line.append(err.as_str());
                proof {
                    assert(line@ == spec_notify_config_error_line(
                        nf.spec_kind(),
                        orig[k].spec_name(),
                        err@,
                    ));
                    assert(N::spec_config_rel(orig[k], nf, gsn));
                }
                errors.push(line);
                failed.push(nf);
            },
        }
    }
    let ghost vsnap = valid@;
    *notifiers = valid;
    proof {
        assert(orig.take(orig.len() as int) =~= orig);
        assert(notifiers@ == vsnap);
    }
    (errors, failed)
}

/// One turn of a prober's driver: probe, then hand the result and the list
/// of channels to publish it into back to the runtime, which routes each
/// copy and then sleeps for the prober's interval.
pub fn probe_once<B: crate::prober::ProbeBehavior>(
    p: &mut crate::prober::DefaultProber<B>,
) -> (r: (ProbeResult, Vec<String>))
    requires
        old(p).threshold.failure >= 1,
        old(p).threshold.success >= 1,
    ensures
        r.0@ == final(p).result@,
        r.1@.map_values(|s: String| s@) == final(p).channels@.map_values(|s: String| s@),
        final(p).threshold == old(p).threshold,
{
    let result = p.probe();
    let channels = crate::text::clone_string_vec(&p.channels);
    (result, channels)
}

} // verus!

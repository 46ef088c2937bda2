//! The process-wide directory of channels: idempotent creation, wiring of
//! probers and notifiers into every channel they name, routing of results,
//! the dry-run flag, and shutdown.

use vstd::prelude::*;
use crate::channel::{
    lemma_unique_notifier_count, lemma_unique_prober_count, spec_notifier_count, spec_prober_count,
    Channel, CHANNEL_CAPACITY,
};
use crate::notifier::Notifier;
use crate::prober::Prober;
use crate::result::ProbeResult;
use crate::text::spec_views;

verus! {

/// The directory of channels and the process-wide dry-run flag.
#[derive(Debug)]
pub struct Manager<P: Prober, N: Notifier> {
    pub channels: Vec<Channel<P, N>>,
    pub dry_notify: bool,
}

impl<P: Prober, N: Notifier> Manager<P, N> {
    /// Channel names are unique and every channel's registries are.
    pub open spec fn wf(&self) -> bool {
        &&& forall|i: int, j: int|
            0 <= i < j < self.channels@.len() ==> (#[trigger] self.channels@[i]).name@ != (
            #[trigger] self.channels@[j]).name@
        &&& forall|i: int| 0 <= i < self.channels@.len() ==> (#[trigger] self.channels@[i]).wf()
    }

    /// Whether a channel of that name exists.
    pub open spec fn spec_has_channel(&self, name: Seq<char>) -> bool {
        exists|i: int|
            0 <= i < self.channels@.len() && (#[trigger] self.channels@[i]).name@ == name
    }

    /// Whether the named channel holds a prober of that name.
    pub open spec fn spec_channel_has_prober(&self, cname: Seq<char>, pname: Seq<char>) -> bool {
        exists|i: int|
            0 <= i < self.channels@.len() && (#[trigger] self.channels@[i]).name@ == cname
                && self.channels@[i].spec_has_prober(pname)
    }

    /// Whether the named channel holds a notifier of that name.
    pub open spec fn spec_channel_has_notifier(&self, cname: Seq<char>, nname: Seq<char>) -> bool {
        exists|i: int|
            0 <= i < self.channels@.len() && (#[trigger] self.channels@[i]).name@ == cname
                && self.channels@[i].spec_has_notifier(nname)
    }

    /// An empty directory in live mode.
    pub fn new() -> (r: Self)
        ensures
            r.channels@.len() == 0,
            r.dry_notify == false,
            r.wf(),
    {
        Manager { channels: Vec::new(), dry_notify: false }
    }

    /// Sets the process-wide dry-run flag.
    pub fn set_dry_notify(&mut self, dry: bool)
        ensures
            final(self).dry_notify == dry,
            final(self).channels == old(self).channels,
    {
        self.dry_notify = dry;
    }

    /// Reads the process-wide dry-run flag.
    pub fn is_dry_notify(&self) -> (r: bool)
        ensures
            r == self.dry_notify,
    {
        self.dry_notify
    }

    /// The index of the named channel.
    fn find_channel(&self, name: &str) -> (r: Option<usize>)
        ensures
            r is Some <==> self.spec_has_channel(name@),
            r matches Some(i) ==> i < self.channels@.len() && self.channels@[i as int].name@
                == name@,
    {
        let n = self.channels.len();
        let mut i: usize = 0;
        while i < n
            invariant
                n == self.channels.len(),
                i <= n,
                forall|j: int| 0 <= j < i ==> (#[trigger] self.channels@[j]).name@ != name@,
            decreases n - i,
        {
            if crate::text::str_eq(self.channels[i].name.as_str(), name) {
                return Some(i);
            }
            i = i + 1;
        }
        None
    }

    /// Looks a channel up by name.
    pub fn get_channel(&self, name: &str) -> (r: Option<&Channel<P, N>>)
        ensures
            r is Some <==> self.spec_has_channel(name@),
            r matches Some(c) ==> c.name@ == name@ && exists|i: int|
                0 <= i < self.channels@.len() && (#[trigger] self.channels@[i]) == *c,
    {
        match self.find_channel(name) {
            Some(i) => Some(&self.channels[i]),
            None => None,
        }
    }

    /// How `set_channel` relates the directory before and after: an existing
    /// name leaves everything as it was; a fresh name appends one empty
    /// channel of that name.
    pub open spec fn spec_set_channel_rel(pre: Self, post: Self, name: Seq<char>) -> bool {
        if pre.spec_has_channel(name) {
            post == pre
        } else {
            &&& post.channels@.len() == pre.channels@.len() + 1
            &&& post.channels@.subrange(0, pre.channels@.len() as int) == pre.channels@
            &&& post.channels@.last().name@ == name
            &&& post.channels@.last().probers@.len() == 0
            &&& post.channels@.last().notifiers@.len() == 0
            &&& post.channels@.last().queue@.len() == 0
            &&& post.channels@.last().stopped == false
            &&& post.dry_notify == pre.dry_notify
        }
    }

    /// Idempotent creation: ensures a channel of that name exists.
    pub fn set_channel(&mut self, name: &str)
        ensures
            Self::spec_set_channel_rel(*old(self), *final(self), name@),
            final(self).spec_has_channel(name@),
            old(self).wf() ==> final(self).wf(),
            final(self).dry_notify == old(self).dry_notify,
            forall|cn: Seq<char>|
                #[trigger] final(self).spec_has_channel(cn) <==> (old(self).spec_has_channel(cn)
                    || cn == name@),
            forall|cn: Seq<char>, pn: Seq<char>|
                #[trigger] final(self).spec_channel_has_prober(cn, pn) <==> old(
                    self,
                ).spec_channel_has_prober(cn, pn),
            forall|cn: Seq<char>, nn: Seq<char>|
                #[trigger] final(self).spec_channel_has_notifier(cn, nn) <==> old(
                    self,
                ).spec_channel_has_notifier(cn, nn),
    {
        match self.find_channel(name) {
            Some(_) => (),
            None => {
                self.channels.push(Channel::new(name));
                proof {
                    let pre = old(self).channels@;
                    assert(self.channels@.subrange(0, pre.len() as int) =~= pre);
                    assert(self.channels@[pre.len() as int].name@ == name@);
                    assert forall|i: int, j: int|
                        0 <= i < j < self.channels@.len() && old(self).wf() implies (
                    #[trigger] self.channels@[i]).name@ != (#[trigger] self.channels@[j]).name@ by {
                        if j < pre.len() {
                        } else {
                            assert(self.channels@[j].name@ == name@);
                            assert(old(self).channels@[i].name@ != name@);
                        }
                    }
                }
            },
        }
        proof {
            if !old(self).spec_has_channel(name@) {
                assert(self.channels@[self.channels@.len() - 1].name@ == name@);
            }
            assert forall|cn: Seq<char>| #[trigger]
                self.spec_has_channel(cn) implies (old(self).spec_has_channel(cn) || cn
                == name@) by {
                let w = choose|w: int|
                    0 <= w < self.channels@.len() && (#[trigger] self.channels@[w]).name@ == cn;
                if w < old(self).channels@.len() {
                    assert(old(self).channels@[w].name@ == cn);
                }
            }
            assert forall|cn: Seq<char>, pn: Seq<char>| #[trigger]
                old(self).spec_channel_has_prober(cn, pn) implies self.spec_channel_has_prober(
                cn,
                pn,
            ) by {
                let w = choose|w: int|
                    0 <= w < old(self).channels@.len() && (#[trigger] old(self).channels@[w]).name@ == cn && old(self).channels@[w].spec_has_prober(pn);
                assert(self.channels@[w] == old(self).channels@[w]);
            }
            assert forall|cn: Seq<char>, nn: Seq<char>| #[trigger]
                old(self).spec_channel_has_notifier(cn, nn) implies self.spec_channel_has_notifier(
                cn,
                nn,
            ) by {
                let w = choose|w: int|
                    0 <= w < old(self).channels@.len() && (#[trigger] old(self).channels@[w]).name@ == cn && old(self).channels@[w].spec_has_notifier(nn);
                assert(self.channels@[w] == old(self).channels@[w]);
            }
            assert forall|cn: Seq<char>, pn: Seq<char>| #[trigger]
                self.spec_channel_has_prober(cn, pn) implies old(self).spec_channel_has_prober(
                cn,
                pn,
            ) by {
                let w = choose|w: int|
                    0 <= w < self.channels@.len() && (#[trigger] self.channels@[w]).name@ == cn
                        && self.channels@[w].spec_has_prober(pn);
                if w < old(self).channels@.len() {
                    assert(self.channels@[w] == old(self).channels@[w]);
                } else {
                    assert(self.channels@[w].probers@.len() == 0);
                }
            }
            assert forall|cn: Seq<char>, nn: Seq<char>| #[trigger]
                self.spec_channel_has_notifier(cn, nn) implies old(self).spec_channel_has_notifier(
                cn,
                nn,
            ) by {
                let w = choose|w: int|
                    0 <= w < self.channels@.len() && (#[trigger] self.channels@[w]).name@ == cn
                        && self.channels@[w].spec_has_notifier(nn);
                if w < old(self).channels@.len() {
                    assert(self.channels@[w] == old(self).channels@[w]);
                } else {
                    assert(self.channels@[w].notifiers@.len() == 0);
                }
            }
        }
    }

    /// Ensures the channel exists, then registers the prober there; an
    /// already registered name is left as it was. Everything wired before
    /// stays wired.
    pub fn set_prober(&mut self, channel_name: &str, p: P) -> (warned: Option<String>)
        requires
            old(self).wf(),
        ensures
            final(self).wf(),
            final(self).spec_has_channel(channel_name@),
            final(self).spec_channel_has_prober(channel_name@, p.spec_name()),
            forall|cn: Seq<char>|
                #[trigger] final(self).spec_has_channel(cn) <==> (old(self).spec_has_channel(cn)
                    || cn == channel_name@),
            forall|cn: Seq<char>, pn: Seq<char>|
                #[trigger] final(self).spec_channel_has_prober(cn, pn) <==> (old(
                    self,
                ).spec_channel_has_prober(cn, pn) || (cn == channel_name@ && pn == p.spec_name())),
            forall|cn: Seq<char>, nn: Seq<char>|
                #[trigger] final(self).spec_channel_has_notifier(cn, nn) <==> old(
                    self,
                ).spec_channel_has_notifier(cn, nn),
            final(self).dry_notify == old(self).dry_notify,
    {
        self.set_channel(channel_name);
        let ghost mid = *self;
        let found = self.find_channel(channel_name);
        let i = match found {
            Some(i) => i,
            None => {
                proof {
                    assert(false);
                }
                0
            },
        };
        let mut ch = self.channels.remove(i);
        let warned = ch.add_prober(p);
        self.channels.insert(i, ch);
        proof {
            assert(self.channels@ =~= mid.channels@.update(i as int, self.channels@[i as int]));
            let chp = self.channels@[i as int];
            assert(chp.name@ == channel_name@);
            assert(chp.spec_has_prober(p.spec_name()));
            assert(self.spec_channel_has_prober(channel_name@, p.spec_name()));
            assert(forall|w: int|
                0 <= w < self.channels@.len() ==> (#[trigger] self.channels@[w]).name@
                    == mid.channels@[w].name@);
            assert forall|cn: Seq<char>| #[trigger]
                self.spec_has_channel(cn) <==> mid.spec_has_channel(cn) by {
                if self.spec_has_channel(cn) {
                    let w = choose|w: int|
                        0 <= w < self.channels@.len() && (#[trigger] self.channels@[w]).name@
                            == cn;
                    assert(mid.channels@[w].name@ == cn);
                }
                if mid.spec_has_channel(cn) {
                    let w = choose|w: int|
                        0 <= w < mid.channels@.len() && (#[trigger] mid.channels@[w]).name@ == cn;
                    assert(self.channels@[w].name@ == cn);
                }
            }
            assert forall|cn: Seq<char>, pn: Seq<char>| #[trigger]
                mid.spec_channel_has_prober(cn, pn) implies self.spec_channel_has_prober(
                cn,
                pn,
            ) by {
                let w = choose|w: int|
                    0 <= w < mid.channels@.len() && (#[trigger] mid.channels@[w]).name@ == cn
                        && mid.channels@[w].spec_has_prober(pn);
                if w == i as int {
                    assert(self.channels@[w].spec_has_prober(pn));
                } else {
                    assert(self.channels@[w] == mid.channels@[w]);
                }
            }
            assert forall|cn: Seq<char>, pn: Seq<char>| #[trigger]
                self.spec_channel_has_prober(cn, pn) implies (mid.spec_channel_has_prober(cn, pn)
                || (cn == channel_name@ && pn == p.spec_name())) by {
                let w = choose|w: int|
                    0 <= w < self.channels@.len() && (#[trigger] self.channels@[w]).name@ == cn
                        && self.channels@[w].spec_has_prober(pn);
                if w == i as int {
                    if pn != p.spec_name() {
                        assert(mid.channels@[w].spec_has_prober(pn));
                    }
                } else {
                    assert(self.channels@[w] == mid.channels@[w]);
                }
            }
            assert forall|cn: Seq<char>, pn: Seq<char>| #[trigger]
                mid.spec_channel_has_prober(cn, pn) <==> old(self).spec_channel_has_prober(
                cn,
                pn,
            ) by {}
            assert forall|cn: Seq<char>, nn: Seq<char>| #[trigger]
                mid.spec_channel_has_notifier(cn, nn) implies self.spec_channel_has_notifier(
                cn,
                nn,
            ) by {
                let w = choose|w: int|
                    0 <= w < mid.channels@.len() && (#[trigger] mid.channels@[w]).name@ == cn
                        && mid.channels@[w].spec_has_notifier(nn);
                if w == i as int {
                    assert(self.channels@[w].spec_has_notifier(nn));
                } else {
                    assert(self.channels@[w] == mid.channels@[w]);
                }
            }
            assert forall|cn: Seq<char>, nn: Seq<char>| #[trigger]
                self.spec_channel_has_notifier(cn, nn) implies mid.spec_channel_has_notifier(
                cn,
                nn,
            ) by {
                let w = choose|w: int|
                    0 <= w < self.channels@.len() && (#[trigger] self.channels@[w]).name@ == cn
                        && self.channels@[w].spec_has_notifier(nn);
                if w == i as int {
                    assert(mid.channels@[w].spec_has_notifier(nn));
                } else {
                    assert(self.channels@[w] == mid.channels@[w]);
                }
            }
            assert forall|cn: Seq<char>, nn: Seq<char>| #[trigger]
                mid.spec_channel_has_notifier(cn, nn) <==> old(self).spec_channel_has_notifier(
                cn,
                nn,
            ) by {}
            assert forall|a: int, b: int|
                0 <= a < b < self.channels@.len() implies (#[trigger] self.channels@[a]).name@ != (
            #[trigger] self.channels@[b]).name@ by {
                assert(self.channels@[a].name@ == mid.channels@[a].name@);
                assert(self.channels@[b].name@ == mid.channels@[b].name@);
            }
            assert forall|cn: Seq<char>, pn: Seq<char>| #[trigger]
                self.spec_channel_has_prober(cn, pn) <==> (old(self).spec_channel_has_prober(
                cn,
                pn,
            ) || (cn == channel_name@ && pn == p.spec_name())) by {
                assert(mid.spec_channel_has_prober(cn, pn) <==> old(self).spec_channel_has_prober(
                    cn,
                    pn,
                ));
            }
            assert forall|cn: Seq<char>, nn: Seq<char>| #[trigger]
                self.spec_channel_has_notifier(cn, nn) <==> old(self).spec_channel_has_notifier(
                cn,
                nn,
            ) by {
                assert(mid.spec_channel_has_notifier(cn, nn)
                    <==> old(self).spec_channel_has_notifier(cn, nn));
            }
        }
        warned
    }

    /// Wires every prober into every channel it names, creating channels as
    /// needed. A channel gains exactly the probers that list it; everything
    /// else is untouched.
    pub fn set_probers(&mut self, probers: Vec<P>) -> (warnings: Vec<String>)
        requires
            old(self).wf(),
        ensures
            final(self).wf(),
            forall|i: int, j: int|
                0 <= i < probers@.len() && 0 <= j < probers@[i].spec_channels().len() ==> final(self).spec_channel_has_prober(
                    #[trigger] probers@[i].spec_channels()[j],
                    probers@[i].spec_name(),
                ),
            forall|cn: Seq<char>, xn: Seq<char>|
                #[trigger] final(self).spec_channel_has_prober(cn, xn) <==> (old(
                    self,
                ).spec_channel_has_prober(cn, xn) || exists|a: int|
                    0 <= a < probers@.len() && (#[trigger] probers@[a]).spec_name() == xn
                        && probers@[a].spec_channels().contains(cn)),
            forall|cn: Seq<char>, yn: Seq<char>|
                #[trigger] final(self).spec_channel_has_notifier(cn, yn) <==> old(
                    self,
                ).spec_channel_has_notifier(cn, yn),
            final(self).dry_notify == old(self).dry_notify,
    {
        let mut warnings: Vec<String> = Vec::new();
        let n = probers.len();
        let mut i: usize = 0;
        while i < n
            invariant
                n == probers.len(),
                i <= n,
                self.wf(),
                self.dry_notify == old(self).dry_notify,
                forall|a: int, b: int|
                    0 <= a < i && 0 <= b < probers@[a].spec_channels().len()
                        ==> self.spec_channel_has_prober(
                        #[trigger] probers@[a].spec_channels()[b],
                        probers@[a].spec_name(),
                    ),
                forall|cn: Seq<char>, xn: Seq<char>|
                    #[trigger] self.spec_channel_has_prober(cn, xn) <==> (old(
                        self,
                    ).spec_channel_has_prober(cn, xn) || exists|a: int|
                        0 <= a < i && (#[trigger] probers@[a]).spec_name() == xn
                            && probers@[a].spec_channels().contains(cn)),
                forall|cn: Seq<char>, yn: Seq<char>|
                    #[trigger] self.spec_channel_has_notifier(cn, yn) <==> old(
                        self,
                    ).spec_channel_has_notifier(cn, yn),
            decreases n - i,
        {
            let chans = probers[i].channels();
            let m = chans.len();
            let mut j: usize = 0;
            while j < m
                invariant
                    n == probers.len(),
                    i < n,
                    m == chans.len(),
                    j <= m,
                    chans@.map_values(|s: String| s@) == probers@[i as int].spec_channels(),
                    self.wf(),
                    self.dry_notify == old(self).dry_notify,
                    forall|a: int, b: int|
                        0 <= a < i && 0 <= b < probers@[a].spec_channels().len()
                            ==> self.spec_channel_has_prober(
                            #[trigger] probers@[a].spec_channels()[b],
                            probers@[a].spec_name(),
                        ),
                    forall|b: int|
                        0 <= b < j ==> self.spec_channel_has_prober(
                            #[trigger] probers@[i as int].spec_channels()[b],
                            probers@[i as int].spec_name(),
                        ),
                    forall|cn: Seq<char>, xn: Seq<char>|
                        #[trigger] self.spec_channel_has_prober(cn, xn) <==> (old(
                            self,
                        ).spec_channel_has_prober(cn, xn) || exists|a: int|
                            0 <= a < i && (#[trigger] probers@[a]).spec_name() == xn
                                && probers@[a].spec_channels().contains(cn) || (xn
                            == probers@[i as int].spec_name() && exists|b: int|
                            0 <= b < j && probers@[i as int].spec_channels()[b] == cn)),
                    forall|cn: Seq<char>, yn: Seq<char>|
                        #[trigger] self.spec_channel_has_notifier(cn, yn) <==> old(
                            self,
                        ).spec_channel_has_notifier(cn, yn),
                decreases m - j,
            {
                let ghost pre = *self;
                let w = self.set_prober(chans[j].as_str(), probers[i].duplicate());
                proof {
                    assert(chans@[j as int]@ == probers@[i as int].spec_channels()[j as int]);
                    assert forall|cn: Seq<char>, xn: Seq<char>| #[trigger]
                        self.spec_channel_has_prober(cn, xn) <==> (old(
                        self,
                    ).spec_channel_has_prober(cn, xn) || exists|a: int|
                        0 <= a < i && (#[trigger] probers@[a]).spec_name() == xn
                            && probers@[a].spec_channels().contains(cn) || (xn
                        == probers@[i as int].spec_name() && exists|b: int|
                        0 <= b < j + 1 && probers@[i as int].spec_channels()[b] == cn)) by {
                        if self.spec_channel_has_prober(cn, xn) {
                            if !pre.spec_channel_has_prober(cn, xn) {
                                assert(cn == probers@[i as int].spec_channels()[j as int] && xn
                                    == probers@[i as int].spec_name());
                            }
                        }
                        if exists|b: int|
                            0 <= b < j + 1 && probers@[i as int].spec_channels()[b] == cn {
                            let b = choose|b: int|
                                0 <= b < j + 1 && probers@[i as int].spec_channels()[b] == cn;
                            if b < j && xn == probers@[i as int].spec_name() {
                                assert(pre.spec_channel_has_prober(cn, xn));
                            }
                        }
                    }
                }
                match w {
                    Some(line) => warnings.push(line),
                    None => (),
                }
                j = j + 1;
            }
            proof {
                assert forall|cn: Seq<char>, xn: Seq<char>| #[trigger]
                    self.spec_channel_has_prober(cn, xn) <==> (old(self).spec_channel_has_prober(
                    cn,
                    xn,
                ) || exists|a: int|
                    0 <= a < i + 1 && (#[trigger] probers@[a]).spec_name() == xn
                        && probers@[a].spec_channels().contains(cn)) by {
                    if self.spec_channel_has_prober(cn, xn) {
                        if !old(self).spec_channel_has_prober(cn, xn) {
                            if exists|a: int|
                                0 <= a < i && (#[trigger] probers@[a]).spec_name() == xn
                                    && probers@[a].spec_channels().contains(cn) {
                                let a = choose|a: int|
                                    0 <= a < i && (#[trigger] probers@[a]).spec_name() == xn
                                        && probers@[a].spec_channels().contains(cn);
                                assert(0 <= a < i + 1 && probers@[a].spec_name() == xn
                                    && probers@[a].spec_channels().contains(cn));
                            } else {
                                let b = choose|b: int|
                                    0 <= b < m && probers@[i as int].spec_channels()[b] == cn;
                                assert(probers@[i as int].spec_channels().contains(cn));
                            }
                        }
                    }
                    if exists|a: int|
                        0 <= a < i + 1 && (#[trigger] probers@[a]).spec_name() == xn
                            && probers@[a].spec_channels().contains(cn) {
                        let a = choose|a: int|
                            0 <= a < i + 1 && (#[trigger] probers@[a]).spec_name() == xn
                                && probers@[a].spec_channels().contains(cn);
                        if a == i {
                            let idx = choose|idx: int|
                                0 <= idx < probers@[a].spec_channels().len()
                                    && probers@[a].spec_channels()[idx] == cn;
                            assert(exists|b: int|
                                0 <= b < m && probers@[i as int].spec_channels()[b] == cn);
                        }
                    }
                }
                assert forall|a: int, b: int|
                    0 <= a < i + 1 && 0 <= b < probers@[a].spec_channels().len()
                        implies self.spec_channel_has_prober(
                        #[trigger] probers@[a].spec_channels()[b],
                        probers@[a].spec_name(),
                    ) by {
                    if a == i {
                        assert(self.spec_channel_has_prober(
                            probers@[i as int].spec_channels()[b],
                            probers@[i as int].spec_name(),
                        ));
                    }
                }
            }
            i = i + 1;
        }
        warnings
    }

    /// Ensures the channel exists, then registers the notifier there; an
    /// already registered name is left as it was.
    pub fn set_notifier(&mut self, channel_name: &str, nf: N) -> (warned: Option<String>)
        requires
            old(self).wf(),
        ensures
            final(self).wf(),
            final(self).spec_has_channel(channel_name@),
            final(self).spec_channel_has_notifier(channel_name@, nf.spec_name()),
            forall|cn: Seq<char>|
                #[trigger] final(self).spec_has_channel(cn) <==> (old(self).spec_has_channel(cn)
                    || cn == channel_name@),
            forall|cn: Seq<char>, nn: Seq<char>|
                #[trigger] final(self).spec_channel_has_notifier(cn, nn) <==> (old(
                    self,
                ).spec_channel_has_notifier(cn, nn) || (cn == channel_name@ && nn
                    == nf.spec_name())),
            forall|cn: Seq<char>, pn: Seq<char>|
                #[trigger] final(self).spec_channel_has_prober(cn, pn) <==> old(
                    self,
                ).spec_channel_has_prober(cn, pn),
            final(self).dry_notify == old(self).dry_notify,
    {
        self.set_channel(channel_name);
        let ghost mid = *self;
        let found = self.find_channel(channel_name);
        let i = match found {
            Some(i) => i,
            None => {
                proof {
                    assert(false);
                }
                0
            },
        };
        let mut ch = self.channels.remove(i);
        let warned = ch.add_notifier(nf);
        self.channels.insert(i, ch);
        proof {
            assert(self.channels@ =~= mid.channels@.update(i as int, self.channels@[i as int]));
            let chp = self.channels@[i as int];
            assert(chp.name@ == channel_name@);
            assert(chp.spec_has_notifier(nf.spec_name()));
            assert(self.spec_channel_has_notifier(channel_name@, nf.spec_name()));
            assert(forall|w: int|
                0 <= w < self.channels@.len() ==> (#[trigger] self.channels@[w]).name@
                    == mid.channels@[w].name@);
            assert forall|cn: Seq<char>| #[trigger]
                self.spec_has_channel(cn) <==> mid.spec_has_channel(cn) by {
                if self.spec_has_channel(cn) {
                    let w = choose|w: int|
                        0 <= w < self.channels@.len() && (#[trigger] self.channels@[w]).name@
                            == cn;
                    assert(mid.channels@[w].name@ == cn);
                }
                if mid.spec_has_channel(cn) {
                    let w = choose|w: int|
                        0 <= w < mid.channels@.len() && (#[trigger] mid.channels@[w]).name@ == cn;
                    assert(self.channels@[w].name@ == cn);
                }
            }
            assert forall|cn: Seq<char>, nn: Seq<char>| #[trigger]
                mid.spec_channel_has_notifier(cn, nn) implies self.spec_channel_has_notifier(
                cn,
                nn,
            ) by {
                let w = choose|w: int|
                    0 <= w < mid.channels@.len() && (#[trigger] mid.channels@[w]).name@ == cn
                        && mid.channels@[w].spec_has_notifier(nn);
                if w == i as int {
                    assert(self.channels@[w].spec_has_notifier(nn));
                } else {
                    assert(self.channels@[w] == mid.channels@[w]);
                }
            }
            assert forall|cn: Seq<char>, nn: Seq<char>| #[trigger]
                self.spec_channel_has_notifier(cn, nn) implies (mid.spec_channel_has_notifier(
                cn,
                nn,
            ) || (cn == channel_name@ && nn == nf.spec_name())) by {
                let w = choose|w: int|
                    0 <= w < self.channels@.len() && (#[trigger] self.channels@[w]).name@ == cn
                        && self.channels@[w].spec_has_notifier(nn);
                if w == i as int {
                    if nn != nf.spec_name() {
                        assert(mid.channels@[w].spec_has_notifier(nn));
                    }
                } else {
                    assert(self.channels@[w] == mid.channels@[w]);
                }
            }
            assert forall|cn: Seq<char>, nn: Seq<char>| #[trigger]
                mid.spec_channel_has_notifier(cn, nn) <==> old(self).spec_channel_has_notifier(
                cn,
                nn,
            ) by {}
            assert forall|cn: Seq<char>, pn: Seq<char>| #[trigger]
                mid.spec_channel_has_prober(cn, pn) implies self.spec_channel_has_prober(
                cn,
                pn,
            ) by {
                let w = choose|w: int|
                    0 <= w < mid.channels@.len() && (#[trigger] mid.channels@[w]).name@ == cn
                        && mid.channels@[w].spec_has_prober(pn);
                if w == i as int {
                    assert(self.channels@[w].spec_has_prober(pn));
                } else {
                    assert(self.channels@[w] == mid.channels@[w]);
                }
            }
            assert forall|cn: Seq<char>, pn: Seq<char>| #[trigger]
                self.spec_channel_has_prober(cn, pn) implies mid.spec_channel_has_prober(
                cn,
                pn,
            ) by {
                let w = choose|w: int|
                    0 <= w < self.channels@.len() && (#[trigger] self.channels@[w]).name@ == cn
                        && self.channels@[w].spec_has_prober(pn);
                if w == i as int {
                    assert(mid.channels@[w].spec_has_prober(pn));
                } else {
                    assert(self.channels@[w] == mid.channels@[w]);
                }
            }
            assert forall|cn: Seq<char>, pn: Seq<char>| #[trigger]
                mid.spec_channel_has_prober(cn, pn) <==> old(self).spec_channel_has_prober(
                cn,
                pn,
            ) by {}
            assert forall|a: int, b: int|
                0 <= a < b < self.channels@.len() implies (#[trigger] self.channels@[a]).name@ != (
            #[trigger] self.channels@[b]).name@ by {
                assert(self.channels@[a].name@ == mid.channels@[a].name@);
                assert(self.channels@[b].name@ == mid.channels@[b].name@);
            }
            assert forall|cn: Seq<char>, nn: Seq<char>| #[trigger]
                self.spec_channel_has_notifier(cn, nn) <==> (old(self).spec_channel_has_notifier(
                cn,
                nn,
            ) || (cn == channel_name@ && nn == nf.spec_name())) by {
                assert(mid.spec_channel_has_notifier(cn, nn)
                    <==> old(self).spec_channel_has_notifier(cn, nn));
            }
            assert forall|cn: Seq<char>, pn: Seq<char>| #[trigger]
                self.spec_channel_has_prober(cn, pn) <==> old(self).spec_channel_has_prober(
                cn,
                pn,
            ) by {
                assert(mid.spec_channel_has_prober(cn, pn) <==> old(self).spec_channel_has_prober(
                    cn,
                    pn,
                ));
            }
        }
        warned
    }

    /// Wires every notifier into every channel it names, creating channels as
    /// needed. A channel gains exactly the notifiers that list it; everything
    /// else is untouched.
    pub fn set_notifiers(&mut self, notifiers: Vec<N>) -> (warnings: Vec<String>)
        requires
            old(self).wf(),
        ensures
            final(self).wf(),
            forall|i: int, j: int|
                0 <= i < notifiers@.len() && 0 <= j < notifiers@[i].spec_channels().len() ==> final(self).spec_channel_has_notifier(
                    #[trigger] notifiers@[i].spec_channels()[j],
                    notifiers@[i].spec_name(),
                ),
            forall|cn: Seq<char>, xn: Seq<char>|
                #[trigger] final(self).spec_channel_has_notifier(cn, xn) <==> (old(
                    self,
                ).spec_channel_has_notifier(cn, xn) || exists|a: int|
                    0 <= a < notifiers@.len() && (#[trigger] notifiers@[a]).spec_name() == xn
                        && notifiers@[a].spec_channels().contains(cn)),
            forall|cn: Seq<char>, yn: Seq<char>|
                #[trigger] final(self).spec_channel_has_prober(cn, yn) <==> old(
                    self,
                ).spec_channel_has_prober(cn, yn),
            final(self).dry_notify == old(self).dry_notify,
    {
        let mut warnings: Vec<String> = Vec::new();
        let n = notifiers.len();
        let mut i: usize = 0;
        while i < n
            invariant
                n == notifiers.len(),
                i <= n,
                self.wf(),
                self.dry_notify == old(self).dry_notify,
                forall|a: int, b: int|
                    0 <= a < i && 0 <= b < notifiers@[a].spec_channels().len()
                        ==> self.spec_channel_has_notifier(
                        #[trigger] notifiers@[a].spec_channels()[b],
                        notifiers@[a].spec_name(),
                    ),
                forall|cn: Seq<char>, xn: Seq<char>|
                    #[trigger] self.spec_channel_has_notifier(cn, xn) <==> (old(
                        self,
                    ).spec_channel_has_notifier(cn, xn) || exists|a: int|
                        0 <= a < i && (#[trigger] notifiers@[a]).spec_name() == xn
                            && notifiers@[a].spec_channels().contains(cn)),
                forall|cn: Seq<char>, yn: Seq<char>|
                    #[trigger] self.spec_channel_has_prober(cn, yn) <==> old(
                        self,
                    ).spec_channel_has_prober(cn, yn),
            decreases n - i,
        {
            let chans = notifiers[i].channels();
            let m = chans.len();
            let mut j: usize = 0;
            while j < m
                invariant
                    n == notifiers.len(),
                    i < n,
                    m == chans.len(),
                    j <= m,
                    chans@.map_values(|s: String| s@) == notifiers@[i as int].spec_channels(),
                    self.wf(),
                    self.dry_notify == old(self).dry_notify,
                    forall|a: int, b: int|
                        0 <= a < i && 0 <= b < notifiers@[a].spec_channels().len()
                            ==> self.spec_channel_has_notifier(
                            #[trigger] notifiers@[a].spec_channels()[b],
                            notifiers@[a].spec_name(),
                        ),
                    forall|b: int|
                        0 <= b < j ==> self.spec_channel_has_notifier(
                            #[trigger] notifiers@[i as int].spec_channels()[b],
                            notifiers@[i as int].spec_name(),
                        ),
                    forall|cn: Seq<char>, xn: Seq<char>|
                        #[trigger] self.spec_channel_has_notifier(cn, xn) <==> (old(
                            self,
                        ).spec_channel_has_notifier(cn, xn) || exists|a: int|
                            0 <= a < i && (#[trigger] notifiers@[a]).spec_name() == xn
                                && notifiers@[a].spec_channels().contains(cn) || (xn
                            == notifiers@[i as int].spec_name() && exists|b: int|
                            0 <= b < j && notifiers@[i as int].spec_channels()[b] == cn)),
                    forall|cn: Seq<char>, yn: Seq<char>|
                        #[trigger] self.spec_channel_has_prober(cn, yn) <==> old(
                            self,
                        ).spec_channel_has_prober(cn, yn),
                decreases m - j,
            {
                let ghost pre = *self;
                let w = self.set_notifier(chans[j].as_str(), notifiers[i].duplicate());
                proof {
                    assert(chans@[j as int]@ == notifiers@[i as int].spec_channels()[j as int]);
                    assert forall|cn: Seq<char>, xn: Seq<char>| #[trigger]
                        self.spec_channel_has_notifier(cn, xn) <==> (old(
                        self,
                    ).spec_channel_has_notifier(cn, xn) || exists|a: int|
                        0 <= a < i && (#[trigger] notifiers@[a]).spec_name() == xn
                            && notifiers@[a].spec_channels().contains(cn) || (xn
                        == notifiers@[i as int].spec_name() && exists|b: int|
                        0 <= b < j + 1 && notifiers@[i as int].spec_channels()[b] == cn)) by {
                        if self.spec_channel_has_notifier(cn, xn) {
                            if !pre.spec_channel_has_notifier(cn, xn) {
                                assert(cn == notifiers@[i as int].spec_channels()[j as int] && xn
                                    == notifiers@[i as int].spec_name());
                            }
                        }
                        if exists|b: int|
                            0 <= b < j + 1 && notifiers@[i as int].spec_channels()[b] == cn {
                            let b = choose|b: int|
                                0 <= b < j + 1 && notifiers@[i as int].spec_channels()[b] == cn;
                            if b < j && xn == notifiers@[i as int].spec_name() {
                                assert(pre.spec_channel_has_notifier(cn, xn));
                            }
                        }
                    }
                }
                match w {
                    Some(line) => warnings.push(line),
                    None => (),
                }
                j = j + 1;
            }
            proof {
                assert forall|cn: Seq<char>, xn: Seq<char>| #[trigger]
                    self.spec_channel_has_notifier(cn, xn) <==> (old(self).spec_channel_has_notifier(
                    cn,
                    xn,
                ) || exists|a: int|
                    0 <= a < i + 1 && (#[trigger] notifiers@[a]).spec_name() == xn
                        && notifiers@[a].spec_channels().contains(cn)) by {
                    if self.spec_channel_has_notifier(cn, xn) {
                        if !old(self).spec_channel_has_notifier(cn, xn) {
                            if exists|a: int|
                                0 <= a < i && (#[trigger] notifiers@[a]).spec_name() == xn
                                    && notifiers@[a].spec_channels().contains(cn) {
                                let a = choose|a: int|
                                    0 <= a < i && (#[trigger] notifiers@[a]).spec_name() == xn
                                        && notifiers@[a].spec_channels().contains(cn);
                                assert(0 <= a < i + 1 && notifiers@[a].spec_name() == xn
                                    && notifiers@[a].spec_channels().contains(cn));
                            } else {
                                let b = choose|b: int|
                                    0 <= b < m && notifiers@[i as int].spec_channels()[b] == cn;
                                assert(notifiers@[i as int].spec_channels().contains(cn));
                            }
                        }
                    }
                    if exists|a: int|
                        0 <= a < i + 1 && (#[trigger] notifiers@[a]).spec_name() == xn
                            && notifiers@[a].spec_channels().contains(cn) {
                        let a = choose|a: int|
                            0 <= a < i + 1 && (#[trigger] notifiers@[a]).spec_name() == xn
                                && notifiers@[a].spec_channels().contains(cn);
                        if a == i {
                            let idx = choose|idx: int|
                                0 <= idx < notifiers@[a].spec_channels().len()
                                    && notifiers@[a].spec_channels()[idx] == cn;
                            assert(exists|b: int|
                                0 <= b < m && notifiers@[i as int].spec_channels()[b] == cn);
                        }
                    }
                }
                assert forall|a: int, b: int|
                    0 <= a < i + 1 && 0 <= b < notifiers@[a].spec_channels().len()
                        implies self.spec_channel_has_notifier(
                        #[trigger] notifiers@[a].spec_channels()[b],
                        notifiers@[a].spec_name(),
                    ) by {
                    if a == i {
                        assert(self.spec_channel_has_notifier(
                            notifiers@[i as int].spec_channels()[b],
                            notifiers@[i as int].spec_name(),
                        ));
                    }
                }
            }
            i = i + 1;
        }
        warnings
    }

    /// Whether some listed channel holds a notifier of that name.
    pub open spec fn spec_notifier_in_listed(
        &self,
        names: Seq<Seq<char>>,
        nname: Seq<char>,
    ) -> bool {
        exists|i: int|
            0 <= i < self.channels@.len() && names.contains((#[trigger] self.channels@[i]).name@)
                && self.channels@[i].spec_has_notifier(nname)
    }

    /// The union of the notifier sets of the listed channels, each distinct
    /// notifier exactly once however many listed channels contain it;
    /// first-seen wins.
    pub fn get_notifiers(&self, channel_names: &Vec<String>) -> (r: Vec<N>)
        requires
            self.wf(),
        ensures
            forall|a: int, b: int|
                0 <= a < b < r@.len() ==> (#[trigger] r@[a]).spec_name() != (
                #[trigger] r@[b]).spec_name(),
            forall|nm: Seq<char>|
                #![trigger self.spec_notifier_in_listed(spec_views(channel_names@), nm)]
                (exists|k: int| 0 <= k < r@.len() && (#[trigger] r@[k]).spec_name() == nm)
                    <==> self.spec_notifier_in_listed(spec_views(channel_names@), nm),
    {
        let ghost names = spec_views(channel_names@);
        let mut out: Vec<N> = Vec::new();
        let t = channel_names.len();
        let mut k: usize = 0;
        while k < t
            invariant
                self.wf(),
                t == channel_names.len(),
                k <= t,
                names == spec_views(channel_names@),
                forall|a: int, b: int|
                    0 <= a < b < out@.len() ==> (#[trigger] out@[a]).spec_name() != (
                    #[trigger] out@[b]).spec_name(),
                forall|nm: Seq<char>|
                    #![trigger self.spec_notifier_in_listed(names.take(k as int), nm)]
                    (exists|u: int| 0 <= u < out@.len() && (#[trigger] out@[u]).spec_name() == nm)
                        <==> self.spec_notifier_in_listed(names.take(k as int), nm),
            decreases t - k,
        {
            let ghost taken = names.take((k + 1) as int);
            let found = self.find_channel(channel_names[k].as_str());
            proof {
                assert(names[k as int] == channel_names@[k as int]@);
                assert(taken.drop_last() =~= names.take(k as int));
                assert(taken.last() == names[k as int]);
            }
            match found {
                Some(ci) => {
                    let ghost chn = self.channels@[ci as int].notifiers@;
                    let nfs = self.channels[ci].notifiers.len();
                    let mut u: usize = 0;
                    while u < nfs
                        invariant
                            self.wf(),
                            t == channel_names.len(),
                            k < t,
                            names == spec_views(channel_names@),
                            ci < self.channels@.len(),
                            self.channels@[ci as int].name@ == names[k as int],
                            chn == self.channels@[ci as int].notifiers@,
                            nfs == chn.len(),
                            u <= nfs,
                            forall|a: int, b: int|
                                0 <= a < b < out@.len() ==> (#[trigger] out@[a]).spec_name() != (
                                #[trigger] out@[b]).spec_name(),
                            forall|nm: Seq<char>|
                                #![trigger self.spec_notifier_in_listed(names.take(k as int), nm)]
                                (exists|w: int|
                                    0 <= w < out@.len() && (#[trigger] out@[w]).spec_name() == nm)
                                    <==> (self.spec_notifier_in_listed(names.take(k as int), nm)
                                    || exists|w: int|
                                    0 <= w < u && (#[trigger] chn[w]).spec_name() == nm),
                        decreases nfs - u,
                    {
                        let ghost nfname = chn[u as int].spec_name();
                        let ghost pre = out@;
                        let nf = &self.channels[ci].notifiers[u];
                        let name_nf = nf.name();
                        proof {
                            assert(name_nf@ == nfname);
                        }
                        let mut present = false;
                        let olen = out.len();
                        let mut v: usize = 0;
                        while v < olen
                            invariant
                                olen == out@.len(),
                                out@ == pre,
                                v <= olen,
                                name_nf@ == nfname,
                                present <==> exists|w: int|
                                    0 <= w < v && (#[trigger] out@[w]).spec_name() == nfname,
                            decreases olen - v,
                        {
                            let name_v = out[v].name();
                            let eq = crate::text::str_eq(name_v, name_nf);
                            if eq {
                                present = true;
                                proof {
                                    assert(out@[v as int].spec_name() == nfname);
                                }
                            } else {
                                proof {
                                    assert(out@[v as int].spec_name() != nfname);
                                }
                            }
                            v = v + 1;
                        }
                        if !present {
                            out.push(nf.duplicate());
                            proof {
                                assert(out@[pre.len() as int].spec_name() == nfname);
                                assert forall|a: int, b: int|
                                    0 <= a < b < out@.len() implies (#[trigger] out@[a]).spec_name()
                                    != (#[trigger] out@[b]).spec_name() by {
                                    if b < pre.len() {
                                        assert(pre[a].spec_name() != pre[b].spec_name());
                                    } else {
                                        assert(out@[b].spec_name() == nfname);
                                        assert(pre[a].spec_name() != nfname);
                                    }
                                }
                            }
                        }
                        u = u + 1;
                        proof {
                            assert forall|nm: Seq<char>|
                                #![trigger self.spec_notifier_in_listed(names.take(k as int), nm)]
                                (exists|w: int|
                                    0 <= w < out@.len() && (#[trigger] out@[w]).spec_name() == nm)
                                    <==> (self.spec_notifier_in_listed(names.take(k as int), nm)
                                    || exists|w: int|
                                    0 <= w < u && (#[trigger] chn[w]).spec_name() == nm) by {
                                if exists|w: int|
                                    0 <= w < out@.len() && (#[trigger] out@[w]).spec_name() == nm {
                                    let w = choose|w: int|
                                        0 <= w < out@.len() && (#[trigger] out@[w]).spec_name()
                                            == nm;
                                    if w < pre.len() {
                                        assert(pre[w].spec_name() == nm);
                                    } else {
                                        assert(nm == nfname);
                                        assert(chn[u - 1].spec_name() == nm);
                                    }
                                }
                                if self.spec_notifier_in_listed(names.take(k as int), nm) {
                                    let w = choose|w: int|
                                        0 <= w < pre.len() && (#[trigger] pre[w]).spec_name() == nm;
                                    assert(out@[w].spec_name() == nm);
                                }
                                if exists|w: int|
                                    0 <= w < u && (#[trigger] chn[w]).spec_name() == nm {
                                    let w = choose|w: int|
                                        0 <= w < u && (#[trigger] chn[w]).spec_name() == nm;
                                    if w < u - 1 {
                                        assert(exists|x: int|
                                            0 <= x < pre.len() && (#[trigger] pre[x]).spec_name()
                                                == nm);
                                        let x = choose|x: int|
                                            0 <= x < pre.len() && (#[trigger] pre[x]).spec_name()
                                                == nm;
                                        assert(out@[x].spec_name() == nm);
                                    } else {
                                        assert(nm == nfname);
                                        if present {
                                            let x = choose|x: int|
                                                0 <= x < pre.len() && (#[trigger] pre[x]).spec_name()
                                                    == nfname;
                                            assert(out@[x].spec_name() == nm);
                                        } else {
                                            assert(out@[pre.len() as int].spec_name() == nm);
                                        }
                                    }
                                }
                            }
                        }
                    }
                    proof {
                        assert forall|nm: Seq<char>|
                            #![trigger self.spec_notifier_in_listed(taken, nm)]
                            (exists|w: int|
                                0 <= w < out@.len() && (#[trigger] out@[w]).spec_name() == nm)
                                <==> self.spec_notifier_in_listed(taken, nm) by {
                            if exists|w: int|
                                0 <= w < out@.len() && (#[trigger] out@[w]).spec_name() == nm {
                                if self.spec_notifier_in_listed(names.take(k as int), nm) {
                                    let w = choose|w: int|
                                        0 <= w < self.channels@.len() && names.take(
                                            k as int,
                                        ).contains((#[trigger] self.channels@[w]).name@)
                                            && self.channels@[w].spec_has_notifier(nm);
                                    let idx = choose|idx: int|
                                        0 <= idx < k && names.take(k as int)[idx]
                                            == self.channels@[w].name@;
                                    assert(taken[idx] == self.channels@[w].name@);
                                    assert(taken.contains(self.channels@[w].name@));
                                    assert(self.spec_notifier_in_listed(taken, nm));
                                } else {
                                    let w = choose|w: int|
                                        0 <= w < nfs && (#[trigger] chn[w]).spec_name() == nm;
                                    assert(self.channels@[ci as int].notifiers@[w].spec_name()
                                        == nm);
                                    assert(self.channels@[ci as int].spec_has_notifier(nm));
                                    assert(taken[k as int] == self.channels@[ci as int].name@);
                                    assert(taken.contains(self.channels@[ci as int].name@));
                                    assert(self.spec_notifier_in_listed(taken, nm));
                                }
                            }
                            if self.spec_notifier_in_listed(taken, nm) {
                                let w = choose|w: int|
                                    0 <= w < self.channels@.len() && taken.contains(
                                        (#[trigger] self.channels@[w]).name@,
                                    ) && self.channels@[w].spec_has_notifier(nm);
                                let idx = choose|idx: int|
                                    0 <= idx < taken.len() && taken[idx]
                                        == self.channels@[w].name@;
                                if idx < k {
                                    assert(names.take(k as int)[idx] == self.channels@[w].name@);
                                    assert(names.take(k as int).contains(self.channels@[w].name@));
                                    assert(self.spec_notifier_in_listed(names.take(k as int), nm));
                                } else {
                                    assert(self.channels@[w].name@ == names[k as int]);
                                    if w != ci {
                                        assert(self.channels@[w].name@ != self.channels@[ci as int].name@);
                                        assert(false);
                                    }
                                    let x = choose|x: int|
                                        0 <= x < chn.len() && (#[trigger] self.channels@[ci as int].notifiers@[x]).spec_name()
                                            == nm;
                                    assert(chn[x].spec_name() == nm);
                                }
                            }
                        }
                    }
                },
                None => {
                    proof {
                        assert forall|nm: Seq<char>|
                            #![trigger self.spec_notifier_in_listed(taken, nm)]
                            (exists|w: int|
                                0 <= w < out@.len() && (#[trigger] out@[w]).spec_name() == nm)
                                <==> self.spec_notifier_in_listed(taken, nm) by {
                            if self.spec_notifier_in_listed(names.take(k as int), nm) {
                                let w = choose|w: int|
                                    0 <= w < self.channels@.len() && names.take(
                                        k as int,
                                    ).contains((#[trigger] self.channels@[w]).name@)
                                        && self.channels@[w].spec_has_notifier(nm);
                                let idx = choose|idx: int|
                                    0 <= idx < k && names.take(k as int)[idx]
                                        == self.channels@[w].name@;
                                assert(taken[idx] == self.channels@[w].name@);
                                assert(taken.contains(self.channels@[w].name@));
                                assert(self.spec_notifier_in_listed(taken, nm));
                            }
                            if self.spec_notifier_in_listed(taken, nm) {
                                let w = choose|w: int|
                                    0 <= w < self.channels@.len() && taken.contains(
                                        (#[trigger] self.channels@[w]).name@,
                                    ) && self.channels@[w].spec_has_notifier(nm);
                                let idx = choose|idx: int|
                                    0 <= idx < taken.len() && taken[idx]
                                        == self.channels@[w].name@;
                                if idx < k {
                                    assert(names.take(k as int)[idx] == self.channels@[w].name@);
                                    assert(names.take(k as int).contains(self.channels@[w].name@));
                                    assert(self.spec_notifier_in_listed(names.take(k as int), nm));
                                } else {
                                    assert(self.channels@[w].name@ == names[k as int]);
                                    assert(self.spec_has_channel(names[k as int]));
                                    assert(false);
                                }
                            }
                        }
                    }
                },
            }
            k = k + 1;
        }
        proof {
            assert(names.take(t as int) =~= names);
        }
        out
    }

    /// Routes one result onto the named channel's ingress queue, best
    /// effort: nothing happens when no such channel exists, and an overflow
    /// or stopped channel drops the result.
    pub fn send_to_channel(&mut self, name: &str, result: ProbeResult) -> (accepted: bool)
        requires
            old(self).wf(),
        ensures
            final(self).wf(),
            !old(self).spec_has_channel(name@) ==> *final(self) == *old(self) && !accepted,
            old(self).spec_has_channel(name@) ==> exists|i: int|
                {
                    &&& 0 <= i < old(self).channels@.len()
                    &&& (#[trigger] old(self).channels@[i]).name@ == name@
                    &&& accepted == (!old(self).channels@[i].stopped && old(self).channels@[i].queue@.len() < CHANNEL_CAPACITY)
                    &&& final(self).channels@.len() == old(self).channels@.len()
                    &&& (accepted ==> final(self).channels@[i].queue@ == old(self).channels@[i].queue@.push(result))
                    &&& (!accepted ==> final(self).channels@[i] == old(self).channels@[i])
                    &&& forall|j: int|
                        0 <= j < old(self).channels@.len() && j != i ==> final(self).channels@[j] == old(self).channels@[j]
                },
            final(self).dry_notify == old(self).dry_notify,
    {
        let found = self.find_channel(name);
        match found {
            Some(i) => {
                let ghost pre = *self;
                let mut ch = self.channels.remove(i);
                let accepted = ch.send(result);
                self.channels.insert(i, ch);
                proof {
                    assert(self.channels@ =~= pre.channels@.update(
                        i as int,
                        self.channels@[i as int],
                    ));
                    assert forall|a: int, b: int|
                        0 <= a < b < self.channels@.len() implies (
                    #[trigger] self.channels@[a]).name@ != (#[trigger] self.channels@[b]).name@ by {
                        assert(self.channels@[a].name@ == pre.channels@[a].name@);
                        assert(self.channels@[b].name@ == pre.channels@[b].name@);
                    }
                }
                accepted
            },
            None => false,
        }
    }

    /// Raises the stop signal of every channel.
    pub fn all_done(&mut self)
        ensures
            final(self).channels@.len() == old(self).channels@.len(),
            forall|i: int|
                0 <= i < old(self).channels@.len() ==> {
                    &&& (#[trigger] final(self).channels@[i]).stopped == true
                    &&& final(self).channels@[i].name == old(self).channels@[i].name
                    &&& final(self).channels@[i].probers == old(self).channels@[i].probers
                    &&& final(self).channels@[i].notifiers == old(self).channels@[i].notifiers
                    &&& final(self).channels@[i].queue == old(self).channels@[i].queue
                },
            old(self).wf() ==> final(self).wf(),
            final(self).dry_notify == old(self).dry_notify,
    {
        let n = self.channels.len();
        let mut i: usize = 0;
        while i < n
            invariant
                n == self.channels.len(),
                i <= n,
                self.dry_notify == old(self).dry_notify,
                forall|j: int|
                    i <= j < n ==> (#[trigger] self.channels@[j]) == old(self).channels@[j],
                forall|j: int|
                    0 <= j < i ==> {
                        &&& (#[trigger] self.channels@[j]).stopped == true
                        &&& self.channels@[j].name == old(self).channels@[j].name
                        &&& self.channels@[j].probers == old(self).channels@[j].probers
                        &&& self.channels@[j].notifiers == old(self).channels@[j].notifiers
                        &&& self.channels@[j].queue == old(self).channels@[j].queue
                    },
            decreases n - i,
        {
            let ghost pre = *self;
            let mut ch = self.channels.remove(i);
            ch.stop();
            self.channels.insert(i, ch);
            proof {
                assert(self.channels@ =~= pre.channels@.update(i as int, self.channels@[i as int]));
            }
            i = i + 1;
        }
        proof {
            if old(self).wf() {
                assert forall|a: int, b: int|
                    0 <= a < b < self.channels@.len() implies (#[trigger] self.channels@[a]).name@
                    != (#[trigger] self.channels@[b]).name@ by {
                    assert(self.channels@[a].name == old(self).channels@[a].name);
                    assert(self.channels@[b].name == old(self).channels@[b].name);
                }
                assert forall|a: int|
                    0 <= a < self.channels@.len() implies (#[trigger] self.channels@[a]).wf() by {
                    assert(self.channels@[a].probers == old(self).channels@[a].probers);
                    assert(self.channels@[a].notifiers == old(self).channels@[a].notifiers);
                    assert(old(self).channels@[a].wf());
                }
            }
        }
    }

    /// A view of every channel.
    pub fn get_all_channels(&self) -> (r: &Vec<Channel<P, N>>)
        ensures
            r == &self.channels,
    {
        &self.channels
    }
}

/// A channel of a well-formed directory that holds a prober's name holds it
/// exactly once, however the prober was wired in.
pub proof fn lemma_wired_prober_once<P: Prober, N: Notifier>(
    m: Manager<P, N>,
    cname: Seq<char>,
    pname: Seq<char>,
)
    requires
        m.wf(),
        m.spec_channel_has_prober(cname, pname),
    ensures
        exists|i: int|
            0 <= i < m.channels@.len() && (#[trigger] m.channels@[i]).name@ == cname
                && spec_prober_count(m.channels@[i].probers@, pname) == 1,
{
    let i = choose|i: int|
        0 <= i < m.channels@.len() && (#[trigger] m.channels@[i]).name@ == cname
            && m.channels@[i].spec_has_prober(pname);
    lemma_unique_prober_count(m.channels@[i].probers@, pname);
}

/// A channel of a well-formed directory that holds a notifier's name holds
/// it exactly once, however the notifier was wired in.
pub proof fn lemma_wired_notifier_once<P: Prober, N: Notifier>(
    m: Manager<P, N>,
    cname: Seq<char>,
    nname: Seq<char>,
)
    requires
        m.wf(),
        m.spec_channel_has_notifier(cname, nname),
    ensures
        exists|i: int|
            0 <= i < m.channels@.len() && (#[trigger] m.channels@[i]).name@ == cname
                && spec_notifier_count(m.channels@[i].notifiers@, nname) == 1,
{
    let i = choose|i: int|
        0 <= i < m.channels@.len() && (#[trigger] m.channels@[i]).name@ == cname
            && m.channels@[i].spec_has_notifier(nname);
    lemma_unique_notifier_count(m.channels@[i].notifiers@, nname);
}

/// Creating a channel twice under one name is the same as creating it once:
/// the second call leaves the directory exactly as the first left it.
pub proof fn lemma_set_channel_idempotent<P: Prober, N: Notifier>(
    pre: Manager<P, N>,
    mid: Manager<P, N>,
    post: Manager<P, N>,
    name: Seq<char>,
)
    requires
        Manager::spec_set_channel_rel(pre, mid, name),
        Manager::spec_set_channel_rel(mid, post, name),
    ensures
        post == mid,
{
    if pre.spec_has_channel(name) {
        assert(mid == pre);
    } else {
        assert(mid.channels@[mid.channels@.len() - 1].name@ == name);
    }
    assert(mid.spec_has_channel(name));
}

} // verus!

//! A bounded FIFO of recent observations together with the length of the
//! most recent run of equal observations.

use vstd::prelude::*;

verus! {

/// One recorded observation: whether it succeeded, and its message.
#[derive(Debug)]
pub struct StatusHistory {
    pub status: bool,
    pub message: String,
}

impl View for StatusHistory {
    type V = (bool, Seq<char>);

    open spec fn view(&self) -> (bool, Seq<char>) {
        (self.status, self.message@)
    }
}

impl Clone for StatusHistory {
    fn clone(&self) -> (res: Self)
        ensures
            res@ == self@,
    {
        StatusHistory { status: self.status, message: self.message.clone() }
    }
}

/// The mathematical content of a `StatusCounter`.
#[verifier::ext_equal]
pub struct CounterModel {
    pub history: Seq<(bool, Seq<char>)>,
    pub max_len: nat,
    pub current_status: bool,
    pub status_count: nat,
}

/// The model after recording one observation: the run length resets on a
/// flip, grows while below `max_len`, and the FIFO keeps the newest
/// `max_len` entries.
pub open spec fn spec_append(c: CounterModel, status: bool, message: Seq<char>) -> CounterModel {
    let count0: nat = if status != c.current_status {
        0
    } else {
        c.status_count
    };
    let count: nat = if count0 < c.max_len {
        count0 + 1
    } else {
        count0
    };
    let h = c.history.push((status, message));
    let history = if h.len() > c.max_len {
        h.subrange(1, h.len() as int)
    } else {
        h
    };
    CounterModel { history, max_len: c.max_len, current_status: status, status_count: count }
}

/// The model after the FIFO bound changes: only the newest `max_len`
/// entries stay, and the run length is capped at the new bound.
pub open spec fn spec_set_max_len(c: CounterModel, max_len: nat) -> CounterModel {
    let history = if c.history.len() > max_len {
        c.history.subrange(c.history.len() - max_len, c.history.len() as int)
    } else {
        c.history
    };
    let status_count = if c.status_count > max_len {
        max_len
    } else {
        c.status_count
    };
    CounterModel { history, max_len, status_count, ..c }
}

/// A bounded FIFO of recent observations. `status_count` is the number of
/// consecutive most-recent observations equal to `current_status`, capped at
/// `max_len`.
#[derive(Debug)]
pub struct StatusCounter {
    pub status_history: Vec<StatusHistory>,
    pub max_len: usize,
    pub current_status: bool,
    pub status_count: usize,
}

impl View for StatusCounter {
    type V = CounterModel;

    open spec fn view(&self) -> CounterModel {
        CounterModel {
            history: self.status_history@.map_values(|e: StatusHistory| e@),
            max_len: self.max_len as nat,
            current_status: self.current_status,
            status_count: self.status_count as nat,
        }
    }
}

impl Clone for StatusCounter {
    fn clone(&self) -> (res: Self)
        ensures
            res@ == self@,
    {
        let mut history: Vec<StatusHistory> = Vec::new();
        let n = self.status_history.len();
        let mut i: usize = 0;
        while i < n
            invariant
                n == self.status_history.len(),
                i <= n,
                history@.len() == i as nat,
                forall|j: int| 0 <= j < i ==> history@[j]@ == self.status_history@[j]@,
            decreases n - i,
        {
            history.push(self.status_history[i].clone());
            i = i + 1;
        }
        let res = StatusCounter {
            status_history: history,
            max_len: self.max_len,
            current_status: self.current_status,
            status_count: self.status_count,
        };
        proof {
            assert(res@.history =~= self@.history);
        }
        res
    }
}

impl StatusCounter {
    /// An empty counter with the given FIFO bound; `current_status` starts
    /// true with a run length of zero.
    pub fn new(max_len: usize) -> (r: Self)
        ensures
            r@.history == Seq::<(bool, Seq<char>)>::empty(),
            r@.max_len == max_len as nat,
            r@.current_status == true,
            r@.status_count == 0,
    {
        let r = StatusCounter {
            status_history: Vec::new(),
            max_len,
            current_status: true,
            status_count: 0,
        };
        proof {
            assert(r@.history =~= Seq::<(bool, Seq<char>)>::empty());
        }
        r
    }

    /// Records one observation.
    pub fn append_status(&mut self, status: bool, message: String)
        ensures
            final(self)@ == spec_append(old(self)@, status, message@),
    {
        if status != self.current_status {
            self.status_count = 0;
            self.current_status = status;
        }
        if self.status_count < self.max_len {
            self.status_count = self.status_count + 1;
        }
        self.status_history.push(StatusHistory { status, message });
        proof {
            assert(self.status_history@.map_values(|e: StatusHistory| e@) =~= old(
                self,
            )@.history.push((status, message@)));
        }
        if self.status_history.len() > self.max_len {
            self.status_history.remove(0);
            proof {
                let pushed = old(self)@.history.push((status, message@));
                assert(self.status_history@.map_values(|e: StatusHistory| e@) =~= pushed.subrange(
                    1,
                    pushed.len() as int,
                ));
            }
        }
    }

    /// Changes the FIFO bound, discarding the oldest surplus entries and
    /// capping the run length at the new bound.
    pub fn set_max_len(&mut self, max_len: usize)
        ensures
            final(self)@ == spec_set_max_len(old(self)@, max_len as nat),
    {
        self.max_len = max_len;
        if self.status_count > max_len {
            self.status_count = max_len;
        }
        let n = self.status_history.len();
        if n > max_len {
            let start = n - max_len;
            let mut kept: Vec<StatusHistory> = Vec::new();
            let mut i: usize = start;
            while i < n
                invariant
                    start <= i <= n,
                    n == self.status_history.len(),
                    kept@.len() == i - start,
                    forall|j: int|
                        0 <= j < i - start ==> kept@[j]@ == self.status_history@[start + j]@,
                decreases n - i,
            {
                kept.push(self.status_history[i].clone());
                i = i + 1;
            }
            self.status_history = kept;
            proof {
                assert(self.status_history@.map_values(|e: StatusHistory| e@) =~= old(
                    self,
                )@.history.subrange(
                    old(self)@.history.len() - max_len,
                    old(self)@.history.len() as int,
                ));
            }
        }
    }

}

/// The model after a run of `k` equal observations.
pub open spec fn spec_append_run(c: CounterModel, status: bool, message: Seq<char>, k: nat) -> CounterModel
    decreases k,
{
    if k == 0 {
        c
    } else {
        spec_append(spec_append_run(c, status, message, (k - 1) as nat), status, message)
    }
}

/// After a flip, a run of `k` equal observations counts `min(k, max_len)`,
/// and the history never exceeds `max_len`.
pub proof fn lemma_counter_run(c: CounterModel, status: bool, message: Seq<char>, k: nat)
    requires
        k >= 1,
        status != c.current_status,
        c.history.len() <= c.max_len,
    ensures
        ({
            let r = spec_append_run(c, status, message, k);
            &&& r.status_count == if k <= c.max_len {
                k
            } else {
                c.max_len
            }
            &&& r.history.len() <= c.max_len
            &&& r.current_status == status
            &&& r.max_len == c.max_len
        }),
    decreases k,
{
    assert(spec_append_run(c, status, message, k) == spec_append(
        spec_append_run(c, status, message, (k - 1) as nat),
        status,
        message,
    ));
    if k == 1 {
        assert(spec_append_run(c, status, message, 0) == c);
    } else {
        lemma_counter_run(c, status, message, (k - 1) as nat);
    }
}

} // verus!

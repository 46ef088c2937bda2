//! The retry driver for notifier sends: the decisions of the retry loop as a
//! state machine. The embedding runtime performs each attempt and the pauses
//! between them; `times` attempts mean `times - 1` pauses.

use vstd::prelude::*;
use crate::global::Retry;
use crate::text::int_digits;

verus! {

/// The warning after one failed attempt (`attempt` is one-based).
pub open spec fn spec_retry_warn_line(
    kind: Seq<char>,
    name: Seq<char>,
    tag: Seq<char>,
    attempt: int,
    times: int,
    err: Seq<char>,
) -> Seq<char> {
    "["@ + kind + " / "@ + name + " / "@ + tag + "] Retried to send "@ + int_digits(attempt) + "/"@
        + int_digits(times) + " - "@ + err
}

/// The summary error after every attempt failed.
pub open spec fn spec_retry_fail_line(
    kind: Seq<char>,
    name: Seq<char>,
    tag: Seq<char>,
    times: int,
    last_error: Seq<char>,
) -> Seq<char> {
    "["@ + kind + " / "@ + name + " / "@ + tag + "] failed after "@ + int_digits(times)
        + " retries - "@ + last_error
}

/// The last error before any attempt was made.
pub fn initial_error_text() -> (r: String)
    ensures
        r@ == "No error occurred"@,
{
    "No error occurred".to_owned()
}

/// The state of one retry loop: who is sending, the retry policy, and how
/// many attempts were already made.
#[derive(Debug)]
pub struct RetryDriver {
    pub kind: String,
    pub name: String,
    pub tag: String,
    pub retry: Retry,
    pub attempt: i32,
}

impl RetryDriver {
    /// A fresh loop: no attempt made yet.
    pub fn new(kind: &str, name: &str, tag: &str, retry: Retry) -> (r: Self)
        ensures
            r.kind@ == kind@,
            r.name@ == name@,
            r.tag@ == tag@,
            r.retry == retry,
            r.attempt == 0,
    {
        RetryDriver {
            kind: kind.to_owned(),
            name: name.to_owned(),
            tag: tag.to_owned(),
            retry,
            attempt: 0,
        }
    }

    /// Whether another attempt may be made.
    pub fn should_attempt(&self) -> (r: bool)
        ensures
            r == (self.attempt < self.retry.times),
    {
        self.attempt < self.retry.times
    }

    /// Records one failed attempt: hands back the warning to log and, when
    /// another attempt remains, how many milliseconds to pause first. There
    /// is no pause after the last failure.
    pub fn record_failure(&mut self, err: &str) -> (r: (String, Option<u64>))
        requires
            old(self).attempt < old(self).retry.times,
        ensures
            final(self).attempt == old(self).attempt + 1,
            final(self).kind == old(self).kind,
            final(self).name == old(self).name,
            final(self).tag == old(self).tag,
            final(self).retry == old(self).retry,
            r.0@ == spec_retry_warn_line(
                old(self).kind@,
                old(self).name@,
                old(self).tag@,
                old(self).attempt + 1,
                old(self).retry.times as int,
                err@,
            ),
            r.1 == if old(self).attempt + 1 < old(self).retry.times {
                Some(old(self).retry.interval)
            } else {
                Option::<u64>::None
            },
    {
        self.attempt = self.attempt + 1;
        let mut line = "[".to_owned();
        line.append(self.kind.as_str());
        line.append(" / ");
        line.append(self.name.as_str());
        line.append(" / ");
        line.append(self.tag.as_str());
        line.append("] Retried to send ");
        line.append(crate::text::i32_to_string(self.attempt).as_str());
        line.append("/");
        line.append(crate::text::i32_to_string(self.retry.times).as_str());
        line.append(" - ");
        line.append(err);
        let pause = if self.attempt < self.retry.times {
            Some(self.retry.interval)
        } else {
            None
        };
        (line, pause)
    }

    /// The summary error once every attempt failed.
    pub fn final_error(&self, last_error: &str) -> (r: String)
        ensures
            r@ == spec_retry_fail_line(
                self.kind@,
                self.name@,
                self.tag@,
                self.retry.times as int,
                last_error@,
            ),
    {
        let mut line = "[".to_owned();
        line.append(self.kind.as_str());
        line.append(" / ");
        line.append(self.name.as_str());
        line.append(" / ");
        line.append(self.tag.as_str());
        line.append("] failed after ");
        line.append(crate::text::i32_to_string(self.retry.times).as_str());
        line.append(" retries - ");
        line.append(last_error);
        line
    }
}

} // verus!

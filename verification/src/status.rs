//! The coarse health of a probed endpoint, with its display strings.

use vstd::prelude::*;
use crate::text::{lower_of, lowercase};

verus! {

/// Health of an endpoint as the evaluation state machine sees it.
#[derive(Clone, Copy, Debug, PartialEq, Eq, Structural)]
pub enum Status {
    Init,
    Up,
    Down,
    Unknown,
    Bad,
}

impl Default for Status {
    fn default() -> (r: Self)
        ensures
            r == Status::Unknown,
    {
        Status::Unknown
    }
}

/// The long title of a status.
pub open spec fn spec_status_title(s: Status) -> Seq<char> {
    match s {
        Status::Init => "Initialization"@,
        Status::Up => "Success"@,
        Status::Down => "Error"@,
        Status::Unknown => "Unknown"@,
        Status::Bad => "Bad"@,
    }
}

/// The short lowercase tag of a status.
pub open spec fn spec_status_tag(s: Status) -> Seq<char> {
    match s {
        Status::Init => "init"@,
        Status::Up => "up"@,
        Status::Down => "down"@,
        Status::Unknown => "unknown"@,
        Status::Bad => "bad"@,
    }
}

/// The display emoji of a status.
pub open spec fn spec_status_emoji(s: Status) -> Seq<char> {
    match s {
        Status::Init => "🔎"@,
        Status::Up => "✅"@,
        Status::Down => "❌"@,
        Status::Unknown => "⛔️"@,
        Status::Bad => "🚫"@,
    }
}

/// The status whose tag is the given (already lowercased) text; unrecognized
/// text maps to Unknown.
pub open spec fn spec_status_from_tag(t: Seq<char>) -> Status {
    if t == "init"@ {
        Status::Init
    } else if t == "up"@ {
        Status::Up
    } else if t == "down"@ {
        Status::Down
    } else if t == "unknown"@ {
        Status::Unknown
    } else if t == "bad"@ {
        Status::Bad
    } else {
        Status::Unknown
    }
}

impl Status {
    pub fn title(&self) -> (r: &'static str)
        ensures
            r@ == spec_status_title(*self),
    {
        match self {
            Status::Init => "Initialization",
            Status::Up => "Success",
            Status::Down => "Error",
            Status::Unknown => "Unknown",
            Status::Bad => "Bad",
        }
    }

    pub fn to_string(&self) -> (r: &'static str)
        ensures
            r@ == spec_status_tag(*self),
    {
        match self {
            Status::Init => "init",
            Status::Up => "up",
            Status::Down => "down",
            Status::Unknown => "unknown",
            Status::Bad => "bad",
        }
    }

    pub fn emoji(&self) -> (r: &'static str)
        ensures
            r@ == spec_status_emoji(*self),
    {
        match self {
            Status::Init => "🔎",
            Status::Up => "✅",
            Status::Down => "❌",
            Status::Unknown => "⛔️",
            Status::Bad => "🚫",
        }
    }

    /// Reads a status back from its tag, ignoring case.
    pub fn from_string(status: &str) -> (r: Status)
        ensures
            r == spec_status_from_tag(lower_of(status@)),
    {
        let low = lowercase(status);
        if low == "init".to_owned() {
            Status::Init
        } else if low == "up".to_owned() {
            Status::Up
        } else if low == "down".to_owned() {
            Status::Down
        } else if low == "unknown".to_owned() {
            Status::Unknown
        } else if low == "bad".to_owned() {
            Status::Bad
        } else {
            Status::Unknown
        }
    }
}

} // verus!

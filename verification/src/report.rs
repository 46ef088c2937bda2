//! Outbound formatting: the format registry, the reference text formatter,
//! and the one-line send report.

use vstd::prelude::*;
use crate::global::{footer_string, format_time};
use crate::result::{ProbeResult, ResultModel, spec_title};
use crate::status::spec_status_emoji;
use crate::text::{dec_digits, lower_of, lowercase, u64_to_string};

verus! {

/// The wire shape a notifier renders results into.
#[derive(Clone, Copy, Debug, PartialEq, Eq, Structural)]
pub enum Format {
    Unknown,
    MarkdownSocial,
    Markdown,
    HTML,
    JSON,
    Text,
    Log,
    Slack,
    Discord,
    Lark,
    SMS,
    Shell,
}

impl Default for Format {
    fn default() -> (r: Self)
        ensures
            r == Format::Unknown,
    {
        Format::Unknown
    }
}

/// The tag of a format.
pub open spec fn spec_format_tag(f: Format) -> Seq<char> {
    match f {
        Format::Unknown => "unknown"@,
        Format::MarkdownSocial => "markdown-social"@,
        Format::Markdown => "markdown"@,
        Format::HTML => "html"@,
        Format::JSON => "json"@,
        Format::Text => "text"@,
        Format::Log => "log"@,
        Format::Slack => "slack"@,
        Format::Discord => "discord"@,
        Format::Lark => "lark"@,
        Format::SMS => "sms"@,
        Format::Shell => "shell"@,
    }
}

/// The format whose tag is the given (already lowercased) text; unrecognized
/// text maps to Unknown.
pub open spec fn spec_format_from_tag(t: Seq<char>) -> Format {
    if t == "markdown-social"@ {
        Format::MarkdownSocial
    } else if t == "markdown"@ {
        Format::Markdown
    } else if t == "html"@ {
        Format::HTML
    } else if t == "json"@ {
        Format::JSON
    } else if t == "text"@ {
        Format::Text
    } else if t == "log"@ {
        Format::Log
    } else if t == "slack"@ {
        Format::Slack
    } else if t == "discord"@ {
        Format::Discord
    } else if t == "lark"@ {
        Format::Lark
    } else if t == "sms"@ {
        Format::SMS
    } else if t == "shell"@ {
        Format::Shell
    } else {
        Format::Unknown
    }
}

impl Format {
    pub fn to_string(&self) -> (r: &'static str)
        ensures
            r@ == spec_format_tag(*self),
    {
        match self {
            Format::Unknown => "unknown",
            Format::MarkdownSocial => "markdown-social",
            Format::Markdown => "markdown",
            Format::HTML => "html",
            Format::JSON => "json",
            Format::Text => "text",
            Format::Log => "log",
            Format::Slack => "slack",
            Format::Discord => "discord",
            Format::Lark => "lark",
            Format::SMS => "sms",
            Format::Shell => "shell",
        }
    }

    /// Reads a format back from its tag, ignoring case.
    pub fn from_string(s: &str) -> (r: Format)
        ensures
            r == spec_format_from_tag(lower_of(s@)),
    {
        let low = lowercase(s);
        if low == "markdown-social".to_owned() {
            Format::MarkdownSocial
        } else if low == "markdown".to_owned() {
            Format::Markdown
        } else if low == "html".to_owned() {
            Format::HTML
        } else if low == "json".to_owned() {
            Format::JSON
        } else if low == "text".to_owned() {
            Format::Text
        } else if low == "log".to_owned() {
            Format::Log
        } else if low == "slack".to_owned() {
            Format::Slack
        } else if low == "discord".to_owned() {
            Format::Discord
        } else if low == "lark".to_owned() {
            Format::Lark
        } else if low == "sms".to_owned() {
            Format::SMS
        } else if low == "shell".to_owned() {
            Format::Shell
        } else {
            Format::Unknown
        }
    }
}

/// The text rendering of a result, given the formatted start time:
/// `[<title>] <emoji>`, the endpoint with the round-trip milliseconds, the
/// message, and the footer line.
pub open spec fn spec_to_text(m: ResultModel, time: Seq<char>) -> Seq<char> {
    "["@ + spec_title(m) + "] "@ + spec_status_emoji(m.status) + "\n"@ + m.endpoint + " - ⏱ "@
        + dec_digits(m.round_trip_time as nat) + "\n"@ + m.message + "\n"@
        + "EaseProbe v1.0.0 @ localhost"@ + " at "@ + time
}

/// Renders a result as text around an already formatted start time.
pub fn to_text_at(r: &ProbeResult, time: &str) -> (s: String)
    ensures
        s@ == spec_to_text(r@, time@),
{
    let mut s = "[".to_owned();
    s.append(r.title().as_str());
    s.append("] ");
    s.append(r.status.emoji());
    s.append("\n");
    s.append(r.endpoint.as_str());
    s.append(" - ⏱ ");
    s.append(u64_to_string(r.round_trip_time).as_str());
    s.append("\n");
    s.append(r.message.as_str());
    s.append("\n");
    s.append(footer_string().as_str());
    s.append(" at ");
    s.append(time);
    s
}

/// Renders a result as text; the start time is formatted in the machine's
/// local time zone, so only its surroundings are pinned down.
pub fn to_text(r: &ProbeResult) -> (s: String)
    ensures
        exists|time: Seq<char>| s@ == spec_to_text(r@, time),
{
    let time = format_time(r.start_time);
    let s = to_text_at(r, time.as_str());
    proof {
        assert(s@ == spec_to_text(r@, time@));
    }
    s
}

/// The fixed statistics rendering.
pub fn sla_text() -> (s: String)
    ensures
        s@ == "[Overall SLA Report]\n\n"@,
{
    "[Overall SLA Report]\n\n".to_owned()
}

/// Severity of a log line handed back to the caller for emission.
#[derive(Clone, Copy, Debug, PartialEq, Eq, Structural)]
pub enum LogLevel {
    Debug,
    Info,
    Warn,
    Error,
}

/// The `[<kind> / <name> / <tag>]` prefix of the send report.
pub open spec fn spec_send_prefix(kind: Seq<char>, name: Seq<char>, tag: Seq<char>) -> Seq<char> {
    "["@ + kind + " / "@ + name + " / "@ + tag + "] - "@
}

/// The one-line report of a completed send: its level and its text. An empty
/// message is shown as two spaces.
pub open spec fn spec_log_send(
    kind: Seq<char>,
    name: Seq<char>,
    tag: Seq<char>,
    msg: Seq<char>,
    err: Result<(), Seq<char>>,
) -> (LogLevel, Seq<char>) {
    let shown = if msg.len() == 0 {
        "  "@
    } else {
        msg
    };
    match err {
        Ok(_) => (LogLevel::Info, spec_send_prefix(kind, name, tag) + shown + " - successfully sent!"@),
        Err(e) => (
            LogLevel::Error,
            spec_send_prefix(kind, name, tag) + shown + "("@ + e + ") - failed to send! "@,
        ),
    }
}

/// Builds the one-line report of a completed send: INFO on success, ERROR on
/// failure; the caller emits it.
pub fn log_send(kind: &str, name: &str, tag: &str, msg: &str, err: Result<(), String>) -> (r: (
    LogLevel,
    String,
))
    ensures
        (r.0, r.1@) == spec_log_send(
            kind@,
            name@,
            tag@,
            msg@,
            match err {
                Ok(_) => Result::<(), Seq<char>>::Ok(()),
                Err(e) => Result::<(), Seq<char>>::Err(e@),
            },
        ),
{
    let mut line = "[".to_owned();
    line.append(kind);
    line.append(" / ");
    line.append(name);
    line.append(" / ");
    line.append(tag);
    line.append("] - ");
    if msg.is_empty() {
        line.append("  ");
    } else {
        line.append(msg);
    }
    match err {
        Ok(_) => {
            line.append(" - successfully sent!");
            (LogLevel::Info, line)
        },
        Err(e) => {
            line.append("(");
            line.append(e.as_str());
            line.append(") - failed to send! ");
            (LogLevel::Error, line)
        },
    }
}

/// The formatter pair registered for one format. The reference registry binds
/// every format to the text formatter and the fixed statistics rendering.
#[derive(Clone, Copy, Debug, PartialEq, Eq, Structural)]
pub struct FormatFuncStruct {
    pub format: Format,
}

impl FormatFuncStruct {
    /// Renders one result.
    pub fn result_fn(&self, r: &ProbeResult) -> (s: String)
        ensures
            exists|time: Seq<char>| s@ == spec_to_text(r@, time),
    {
        to_text(r)
    }

    /// Renders the overall statistics.
    pub fn stat_fn(&self) -> (s: String)
        ensures
            s@ == "[Overall SLA Report]\n\n"@,
    {
        sla_text()
    }
}

/// Looks a format's formatters up in the registry.
pub fn format_funcs(f: Format) -> (r: FormatFuncStruct)
    ensures
        r.format == f,
{
    FormatFuncStruct { format: f }
}

} // verus!

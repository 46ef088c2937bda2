use easeprobe::global::footer_string;
use easeprobe::report::{
    format_funcs, log_send, sla_text, to_text, to_text_at, Format, LogLevel,
};
use easeprobe::result::ProbeResult;
use easeprobe::status::Status;

fn sample_result() -> ProbeResult {
    let mut r = ProbeResult::default();
    r.name = "p1".to_string();
    r.endpoint = "https://example.com".to_string();
    r.round_trip_time = 42;
    r.status = Status::Up;
    r.pre_status = Status::Init;
    r.message = "Success (http): fine".to_string();
    r
}

#[test]
fn title_of_first_success() {
    let r = sample_result();
    assert_eq!(r.title(), "Monitoring p1");
}

#[test]
fn title_of_failure() {
    let mut r = sample_result();
    r.pre_status = Status::Up;
    r.status = Status::Down;
    assert_eq!(r.title(), "p1 Failure");
}

#[test]
fn title_of_recovery_shows_downtime_seconds() {
    let mut r = sample_result();
    r.pre_status = Status::Down;
    r.status = Status::Up;
    r.recovery_time = 65000;
    assert_eq!(r.title(), "p1 Recovery - ( 65 Downtime )");
}

#[test]
fn text_format_is_exact() {
    let r = sample_result();
    let s = to_text_at(&r, "2024-01-02 03:04:05");
    assert_eq!(
        s,
        "[Monitoring p1] ✅\nhttps://example.com - ⏱ 42\nSuccess (http): fine\nEaseProbe v1.0.0 @ localhost at 2024-01-02 03:04:05"
    );
}

#[test]
fn text_format_with_live_clock_keeps_the_frame() {
    let r = sample_result();
    let s = to_text(&r);
    assert!(s.starts_with("[Monitoring p1] ✅\nhttps://example.com - ⏱ 42\n"));
    assert!(s.contains("EaseProbe v1.0.0 @ localhost at "));
}

#[test]
fn footer_and_sla_text() {
    assert_eq!(footer_string(), "EaseProbe v1.0.0 @ localhost");
    assert_eq!(sla_text(), "[Overall SLA Report]\n\n");
}

#[test]
fn log_send_reports_success_at_info() {
    let (level, line) = log_send("log", "n1", "Notification", "body", Ok(()));
    assert_eq!(level, LogLevel::Info);
    assert_eq!(line, "[log / n1 / Notification] - body - successfully sent!");
}

#[test]
fn log_send_reports_failure_at_error() {
    let (level, line) = log_send("log", "n1", "Notification", "body", Err("boom".to_string()));
    assert_eq!(level, LogLevel::Error);
    assert_eq!(
        line,
        "[log / n1 / Notification] - body(boom) - failed to send! "
    );
}

#[test]
fn log_send_shows_an_empty_message_as_blanks() {
    let (_, line) = log_send("log", "n1", "SLA", "", Ok(()));
    assert_eq!(line, "[log / n1 / SLA] -    - successfully sent!");
}

#[test]
fn format_tags_round() {
    assert_eq!(Format::Text.to_string(), "text");
    assert_eq!(Format::MarkdownSocial.to_string(), "markdown-social");
    assert_eq!(Format::from_string("HTML"), Format::HTML);
    assert_eq!(Format::from_string("markdown-social"), Format::MarkdownSocial);
    assert_eq!(Format::from_string("nope"), Format::Unknown);
    assert_eq!(Format::default(), Format::Unknown);
}

#[test]
fn format_registry_binds_the_text_formatter() {
    let funcs = format_funcs(Format::Text);
    let r = sample_result();
    let s = funcs.result_fn(&r);
    assert!(s.starts_with("[Monitoring p1] ✅\n"));
    assert_eq!(funcs.stat_fn(), "[Overall SLA Report]\n\n");
}

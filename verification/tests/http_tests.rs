use easeprobe::conf::json_schema;
use easeprobe::global::ProbeSettings;
use easeprobe::http::{default_method, default_success_codes, HttpProbeBehavior, HttpProber};
use easeprobe::prober::{ProbeBehavior, Prober};

fn behavior(codes: Vec<(u16, u16)>) -> HttpProbeBehavior {
    HttpProbeBehavior {
        url: "https://example.com".to_string(),
        method: "GET".to_string(),
        headers: vec![],
        body: None,
        success_codes: codes,
        proxy: None,
    }
}

#[test]
fn response_inside_a_range_is_a_success() {
    let b = behavior(vec![(200, 299)]);
    let (ok, msg) = b.evaluate_response(250);
    assert!(ok);
    assert_eq!(msg, "HTTP Status Code is 250");
}

#[test]
fn response_outside_every_range_is_a_failure() {
    let b = behavior(vec![(200, 299)]);
    let (ok, msg) = b.evaluate_response(404);
    assert!(!ok);
    assert_eq!(msg, "HTTP Status Code is 404. It missed in [(200, 299)]");
}

#[test]
fn failure_message_lists_every_range() {
    let b = behavior(vec![(200, 299), (301, 302)]);
    let (ok, msg) = b.evaluate_response(500);
    assert!(!ok);
    assert_eq!(
        msg,
        "HTTP Status Code is 500. It missed in [(200, 299), (301, 302)]"
    );
}

#[test]
fn range_bounds_are_inclusive() {
    let b = behavior(vec![(200, 299)]);
    assert!(b.evaluate_response(200).0);
    assert!(b.evaluate_response(299).0);
    assert!(!b.evaluate_response(199).0);
    assert!(!b.evaluate_response(300).0);
}

#[test]
fn http_defaults() {
    assert_eq!(default_method(), "GET");
    assert_eq!(default_success_codes(), vec![(0, 499)]);
}

#[test]
fn http_prober_config_accepts_a_valid_url() {
    let mut p = HttpProber::new(
        "web",
        "https://example.com/health",
        "GET",
        vec![],
        None,
        1000,
        5000,
    );
    assert_eq!(p.kind(), "http");
    assert_eq!(p.name(), "web");
    let r = p.config(&ProbeSettings::default());
    assert!(r.is_ok());
    // The default channel was bound.
    assert_eq!(p.channels(), vec!["__EaseProbe_Channel__".to_string()]);
}

#[test]
fn http_prober_config_rejects_a_bad_url() {
    let mut p = HttpProber::new("web", "not a url", "GET", vec![], None, 1000, 5000);
    let r = p.config(&ProbeSettings::default());
    assert!(r.is_err());
}

#[test]
fn http_prober_config_rejects_a_bad_proxy_url() {
    let mut p = HttpProber::new(
        "web",
        "https://example.com",
        "GET",
        vec![],
        None,
        1000,
        5000,
    );
    p.default_prober.behavior.proxy = Some("::: nope".to_string());
    let r = p.config(&ProbeSettings::default());
    assert!(r.is_err());
}

#[test]
fn http_probe_without_a_client_reports_an_error_observation() {
    let b = behavior(vec![(200, 299)]);
    let r = b.do_probe();
    assert_eq!(r, Err("probe error".to_string()));
}

#[test]
fn schema_emission_is_empty() {
    assert_eq!(json_schema(), Ok(String::new()));
}

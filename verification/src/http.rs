//! The HTTP reference probe kind: its configuration, URL validation, and the
//! evaluation of a response code against the configured success ranges.
//!
//! Sending the request itself is input/output and belongs to the embedding
//! runtime, which feeds the observed status code through `evaluate_response`
//! and `record_probe`.

use vstd::prelude::*;
use crate::global::ProbeSettings;
use crate::prober::{spec_base_config_rel, DefaultProber, ProbeBehavior, Prober};
use crate::global::IntervalStrategy;
use crate::result::{spec_default_result, ProbeResult, ResultModel};
use crate::status::Status;
use crate::text::{clone_string_vec, dec_digits, u64_to_string};

verus! {

/// Whether `Url::parse` accepts the text, named so that contracts can speak
/// of it; parsing depends on the characters alone.
pub uninterp spec fn url_parse_ok(s: Seq<char>) -> bool;

/// Relies on reqwest::Url::parse (the url crate's parser): checks that the
/// text is an absolute URL; on failure hands back the parse error's text.
#[verifier::external_body]
fn parse_url_check(s: &str) -> (r: Option<String>)
    ensures
        r is None <==> url_parse_ok(s@),
{
    match reqwest::Url::parse(s) {
        Ok(_) => None,
        Err(e) => Some(e.to_string()),
    }
}

pub fn default_method() -> (r: String)
    ensures
        r@ == "GET"@,
{
    "GET".to_owned()
}

pub fn default_success_codes() -> (r: Vec<(u16, u16)>)
    ensures
        r@ == seq![(0u16, 499u16)],
{
    let mut v: Vec<(u16, u16)> = Vec::new();
    v.push((0, 499));
    proof {
        assert(v@ =~= seq![(0u16, 499u16)]);
    }
    v
}

/// The characters of each header pair.
pub open spec fn spec_header_views(s: Seq<(String, String)>) -> Seq<(Seq<char>, Seq<char>)> {
    s.map_values(|p: (String, String)| (p.0@, p.1@))
}

/// Whether a response code falls inside any configured inclusive range.
pub open spec fn spec_code_matches(codes: Seq<(u16, u16)>, code: u16) -> bool {
    exists|i: int| 0 <= i < codes.len() && (#[trigger] codes[i]).0 <= code <= codes[i].1
}

/// One range as the failure message shows it: `(start, end)`.
pub open spec fn spec_range_item(r: (u16, u16)) -> Seq<char> {
    "("@ + dec_digits(r.0 as nat) + ", "@ + dec_digits(r.1 as nat) + ")"@
}

/// The ranges joined with commas, without the brackets.
pub open spec fn spec_ranges_inner(codes: Seq<(u16, u16)>) -> Seq<char>
    decreases codes.len(),
{
    if codes.len() == 0 {
        Seq::<char>::empty()
    } else if codes.len() == 1 {
        spec_range_item(codes[0])
    } else {
        spec_ranges_inner(codes.drop_last()) + ", "@ + spec_range_item(codes.last())
    }
}

/// The ranges as the failure message shows them: `[(a, b), (c, d)]`.
pub open spec fn spec_ranges_text(codes: Seq<(u16, u16)>) -> Seq<char> {
    "["@ + spec_ranges_inner(codes) + "]"@
}

fn range_item_string(r: (u16, u16)) -> (s: String)
    ensures
        s@ == spec_range_item(r),
{
    let mut s = "(".to_owned();
    s.append(u64_to_string(r.0 as u64).as_str());
    s.append(", ");
    s.append(u64_to_string(r.1 as u64).as_str());
    s.append(")");
    s
}

fn ranges_string(codes: &Vec<(u16, u16)>) -> (s: String)
    ensures
        s@ == spec_ranges_text(codes@),
{
    let mut s = "[".to_owned();
    let n = codes.len();
    let mut i: usize = 0;
    while i < n
        invariant
            n == codes.len(),
            i <= n,
            s@ == "["@ + spec_ranges_inner(codes@.take(i as int)),
        decreases n - i,
    {
        if i > 0 {
            s.append(", ");
        }
        s.append(range_item_string(codes[i]).as_str());
        proof {
            let taken = codes@.take(i + 1 as int);
            assert(taken.drop_last() =~= codes@.take(i as int));
            assert(taken.last() == codes@[i as int]);
            if i == 0 {
                assert(spec_ranges_inner(taken) == spec_range_item(codes@[0]));
                assert("["@ + Seq::<char>::empty() =~= "["@);
            }
        }
        i = i + 1;
    }
    proof {
        assert(codes@.take(n as int) =~= codes@);
        if n == 0 {
            assert("["@ + Seq::<char>::empty() =~= "["@);
        }
    }
    s.append("]");
    s
}

/// What an HTTP probe asks and accepts: the request shape and the response
/// codes counted as success. The request is carried out by the embedding
/// runtime; within the library the behavior reports the probe as unusable.
#[derive(Debug)]
pub struct HttpProbeBehavior {
    pub url: String,
    pub method: String,
    pub headers: Vec<(String, String)>,
    pub body: Option<String>,
    pub success_codes: Vec<(u16, u16)>,
    pub proxy: Option<String>,
}

impl HttpProbeBehavior {
    /// Judges one observed response code: whether it is a success, and the
    /// message of the observation.
    pub fn evaluate_response(&self, code: u16) -> (r: (bool, String))
        ensures
            r.0 == spec_code_matches(self.success_codes@, code),
            r.0 ==> r.1@ == "HTTP Status Code is "@ + dec_digits(code as nat),
            !r.0 ==> r.1@ == "HTTP Status Code is "@ + dec_digits(code as nat) + ". It missed in "@
                + spec_ranges_text(self.success_codes@),
    {
        let n = self.success_codes.len();
        let mut i: usize = 0;
        let mut valid = false;
        while i < n
            invariant
                n == self.success_codes.len(),
                i <= n,
                valid == spec_code_matches(self.success_codes@.take(i as int), code),
            decreases n - i,
        {
            let (start, end) = self.success_codes[i];
            if start <= code && code <= end {
                valid = true;
            }
            proof {
                let t = self.success_codes@.take(i + 1 as int);
                assert(forall|j: int| 0 <= j < i + 1 ==> t[j] == self.success_codes@[j]);
                assert(t.drop_last() =~= self.success_codes@.take(i as int));
                if start <= code && code <= end {
                    assert(t[i as int] == self.success_codes@[i as int]);
                    assert(spec_code_matches(t, code));
                }
            }
            i = i + 1;
        }
        proof {
            assert(self.success_codes@.take(n as int) =~= self.success_codes@);
        }
        let mut msg = "HTTP Status Code is ".to_owned();
        msg.append(u64_to_string(code as u64).as_str());
        if valid {
            (true, msg)
        } else {
            msg.append(". It missed in ");
            msg.append(ranges_string(&self.success_codes).as_str());
            (false, msg)
        }
    }
}

impl Clone for HttpProbeBehavior {
    fn clone(&self) -> (res: Self)
        ensures
            res.url@ == self.url@,
            res.method@ == self.method@,
            res.success_codes@ == self.success_codes@,
            spec_header_views(res.headers@) == spec_header_views(self.headers@),
            res.body matches Some(b) ==> self.body matches Some(c) && b@ == c@,
            res.body is None <==> self.body is None,
            res.proxy matches Some(b) ==> self.proxy matches Some(c) && b@ == c@,
            res.proxy is None <==> self.proxy is None,
    {
        let body = match &self.body {
            Some(b) => Some(b.clone()),
            None => None,
        };
        let proxy = match &self.proxy {
            Some(p) => Some(p.clone()),
            None => None,
        };
        let mut headers: Vec<(String, String)> = Vec::new();
        let n = self.headers.len();
        let mut i: usize = 0;
        while i < n
            invariant
                n == self.headers.len(),
                i <= n,
                headers@.len() == i as nat,
                forall|t: int|
                    0 <= t < i ==> (#[trigger] headers@[t]).0@ == self.headers@[t].0@
                        && headers@[t].1@ == self.headers@[t].1@,
            decreases n - i,
        {
            let (k, v) = &self.headers[i];
            headers.push((k.clone(), v.clone()));
            i = i + 1;
        }
        proof {
            assert(spec_header_views(headers@) =~= spec_header_views(self.headers@));
        }
        let mut codes: Vec<(u16, u16)> = Vec::new();
        let m = self.success_codes.len();
        let mut j: usize = 0;
        while j < m
            invariant
                m == self.success_codes.len(),
                j <= m,
                codes@.len() == j as nat,
                forall|t: int| 0 <= t < j ==> codes@[t] == self.success_codes@[t],
            decreases m - j,
        {
            codes.push(self.success_codes[j]);
            j = j + 1;
        }
        proof {
            assert(codes@ =~= self.success_codes@);
        }
        HttpProbeBehavior {
            url: self.url.clone(),
            method: self.method.clone(),
            headers,
            body,
            success_codes: codes,
            proxy,
        }
    }
}

impl ProbeBehavior for HttpProbeBehavior {
    /// Without a bound client the probe cannot be carried out from here; the
    /// embedding runtime performs the request and records its outcome
    /// through `evaluate_response` and `record_probe`.
    fn do_probe(&self) -> (r: Result<(bool, String), String>)
        ensures
            r is Err,
            r matches Err(e) ==> e@ == "probe error"@,
    {
        Err("probe error".to_owned())
    }
}

/// The HTTP reference prober: the shared prober shape around an HTTP
/// behavior.
#[derive(Debug)]
pub struct HttpProber {
    pub default_prober: DefaultProber<HttpProbeBehavior>,
}

impl HttpProber {
    /// A prober named `http` for the given request, accepting the 2xx codes,
    /// bound to no channel yet.
    pub fn new(
        name: &str,
        url: &str,
        method: &str,
        headers: Vec<(String, String)>,
        body: Option<String>,
        timeout: u64,
        interval: u64,
    ) -> (r: Self)
        ensures
            r.default_prober.kind@ == "http"@,
            r.default_prober.tag@ == Seq::<char>::empty(),
            r.default_prober.name@ == name@,
            r.default_prober.channels@.len() == 0,
            r.default_prober.timeout == timeout,
            r.default_prober.interval == interval,
            r.default_prober.behavior.url@ == url@,
            r.default_prober.behavior.method@ == method@,
            r.default_prober.behavior.headers == headers,
            r.default_prober.behavior.body == body,
            r.default_prober.behavior.success_codes@ == seq![(200u16, 299u16)],
            r.default_prober.behavior.proxy is None,
            r.default_prober.result@ == spec_default_result(),
            r.default_prober.threshold.failure == 1,
            r.default_prober.threshold.success == 1,
            r.default_prober.notification.strategy == IntervalStrategy::Regular,
            r.default_prober.notification.factor == 1,
            r.default_prober.notification.max_times == 1,
    {
        let mut success_codes: Vec<(u16, u16)> = Vec::new();
        success_codes.push((200, 299));
        proof {
            assert(success_codes@ =~= seq![(200u16, 299u16)]);
        }
        let behavior = HttpProbeBehavior {
            url: url.to_owned(),
            method: method.to_owned(),
            headers,
            body,
            success_codes,
            proxy: None,
        };
        let default_prober = DefaultProber {
            kind: "http".to_owned(),
            tag: "".to_owned(),
            name: name.to_owned(),
            channels: Vec::new(),
            timeout,
            interval,
            behavior,
            result: ProbeResult::default(),
            threshold: crate::global::StatusChangeThresholdSettings::default(),
            notification: crate::global::NotificationStrategySettings::default(),
        };
        proof {
            reveal_strlit("");
            assert(""@ =~= Seq::<char>::empty());
            assert(default_prober.channels@.map_values(|s: String| s@) =~= Seq::<Seq<char>>::empty());
        }
        HttpProber { default_prober }
    }
}

impl Prober for HttpProber {
    open spec fn spec_kind(&self) -> Seq<char> {
        self.default_prober.kind@
    }

    open spec fn spec_name(&self) -> Seq<char> {
        self.default_prober.name@
    }

    open spec fn spec_channels(&self) -> Seq<Seq<char>> {
        self.default_prober.channels@.map_values(|s: String| s@)
    }

    open spec fn spec_timeout(&self) -> u64 {
        self.default_prober.timeout
    }

    open spec fn spec_interval(&self) -> u64 {
        self.default_prober.interval
    }

    open spec fn spec_result(&self) -> ResultModel {
        self.default_prober.result@
    }

    fn kind(&self) -> (r: &str) {
        self.default_prober.kind.as_str()
    }

    fn name(&self) -> (r: &str) {
        self.default_prober.name.as_str()
    }

    fn channels(&self) -> (r: Vec<String>) {
        clone_string_vec(&self.default_prober.channels)
    }

    fn timeout(&self) -> (r: u64) {
        self.default_prober.timeout
    }

    fn interval(&self) -> (r: u64) {
        self.default_prober.interval
    }

    fn result(&mut self) -> (r: &mut ProbeResult) {
        &mut self.default_prober.result
    }

    open spec fn spec_config_ok(&self, setting: ProbeSettings) -> bool {
        &&& url_parse_ok(self.default_prober.behavior.url@)
        &&& match self.default_prober.behavior.proxy {
            Some(p) => url_parse_ok(p@),
            None => true,
        }
    }

    open spec fn spec_config_rel(pre: Self, post: Self, setting: ProbeSettings) -> bool {
        spec_base_config_rel(
            pre.default_prober,
            post.default_prober,
            setting,
            if pre.default_prober.result@.endpoint.len() == 0 {
                pre.default_prober.behavior.url@
            } else {
                pre.default_prober.result@.endpoint
            },
        )
    }

    /// Shared setup and endpoint binding first, then URL validation: the
    /// probe is usable exactly when its URL, and its proxy URL if one is
    /// named, parse.
    fn config(&mut self, setting: &ProbeSettings) -> (r: Result<(), String>)
        ensures
            final(self).default_prober.threshold.failure >= 1,
            final(self).default_prober.threshold.success >= 1,
    {
        let base = self.default_prober.base_config(setting);
        match base {
            Ok(_) => (),
            Err(e) => {
                return Err(e);
            },
        }
        let ghost mid = self.default_prober.result@;
        if self.default_prober.result.endpoint.as_str().is_empty() {
            self.default_prober.result.endpoint = self.default_prober.behavior.url.clone();
        }
        proof {
            let bound = if old(self).default_prober.result@.endpoint.len() == 0 {
                old(self).default_prober.behavior.url@
            } else {
                old(self).default_prober.result@.endpoint
            };
            assert(self.default_prober.result@ =~~= (ResultModel { endpoint: bound, ..mid }));
        }
        match parse_url_check(self.default_prober.behavior.url.as_str()) {
            Some(e) => {
                return Err(e);
            },
            None => (),
        }
        match &self.default_prober.behavior.proxy {
            Some(proxy) => {
                match parse_url_check(proxy.as_str()) {
                    Some(e) => {
                        return Err(e);
                    },
                    None => (),
                }
            },
            None => (),
        }
        Ok(())
    }

    fn duplicate(&self) -> (r: Self) {
        HttpProber {
            default_prober: DefaultProber {
                kind: self.default_prober.kind.clone(),
                tag: self.default_prober.tag.clone(),
                name: self.default_prober.name.clone(),
                channels: clone_string_vec(&self.default_prober.channels),
                timeout: self.default_prober.timeout,
                interval: self.default_prober.interval,
                behavior: self.default_prober.behavior.clone(),
                result: self.default_prober.result.clone(),
                threshold: self.default_prober.threshold,
                notification: self.default_prober.notification,
            },
        }
    }
}

} // verus!

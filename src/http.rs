//! Outbound HTTP: checking and shaping a request before it is sent, and
//! judging a download's status.
use vstd::prelude::*;

use crate::text::same_text;

verus! {

/// The methods that outbound requests may use.
#[derive(Clone, Copy, Debug, PartialEq, Eq, Structural)]
pub enum HttpMethod {
    Get,
    Post,
    Put,
    Delete,
}

/// The method that an already lowercased name stands for.
pub open spec fn method_of(lowered: Seq<char>) -> Option<HttpMethod> {
    if lowered == "get"@ {
        Some(HttpMethod::Get)
    } else if lowered == "post"@ {
        Some(HttpMethod::Post)
    } else if lowered == "put"@ {
        Some(HttpMethod::Put)
    } else if lowered == "delete"@ {
        Some(HttpMethod::Delete)
    } else {
        None
    }
}

/// The method for a lowercased method name, if it is one of the four.
pub fn select_method(lowered: &str) -> (r: Option<HttpMethod>)
    ensures
        r == method_of(lowered@),
{
    if same_text(lowered, "get") {
        Some(HttpMethod::Get)
    } else if same_text(lowered, "post") {
        Some(HttpMethod::Post)
    } else if same_text(lowered, "put") {
        Some(HttpMethod::Put)
    } else if same_text(lowered, "delete") {
        Some(HttpMethod::Delete)
    } else {
        None
    }
}

/// What `str::to_lowercase` gives for `s`.
pub uninterp spec fn lowercase_of(s: Seq<char>) -> Seq<char>;

/// Relies on `str::to_lowercase`: Unicode lowercasing, which depends on the
/// characters alone.
#[verifier::external_body]
fn lowercase(s: &str) -> (r: String)
    ensures
        r@ == lowercase_of(s@),
{
    s.to_lowercase()
}

/// What `url::Url::parse` makes of `s`: the URL's serialization, or the
/// message of its parse error.
pub uninterp spec fn url_parse_outcome(s: Seq<char>) -> Result<Seq<char>, Seq<char>>;

/// Relies on `url::Url::parse`, read back with `Url::as_str`, and on the
/// `Display` of `url::ParseError` for a refusal. Parsing depends on the
/// input alone.
#[verifier::external_body]
fn parse_url(s: &str) -> (r: Result<String, String>)
    ensures
        match r {
            Ok(u) => url_parse_outcome(s@) == Ok::<Seq<char>, Seq<char>>(u@),
            Err(e) => url_parse_outcome(s@) == Err::<Seq<char>, Seq<char>>(e@),
        },
{
    match url::Url::parse(s) {
        Ok(u) => Ok(u.as_str().to_string()),
        Err(e) => Err(e.to_string()),
    }
}

/// A request ready to send.
pub struct HttpPlan {
    pub method: HttpMethod,
    pub url: String,
    pub headers: Vec<(String, String)>,
    pub body: Option<String>,
}

pub open spec fn text_pairs(h: Seq<(String, String)>) -> Seq<(Seq<char>, Seq<char>)> {
    h.map_values(|p: (String, String)| (p.0@, p.1@))
}

pub open spec fn header_entries(h: Seq<(String, Option<String>)>) -> Seq<(Seq<char>, Option<Seq<char>>)> {
    h.map_values(
        |p: (String, Option<String>)|
            (
                p.0@,
                match p.1 {
                    Some(v) => Some(v@),
                    None => None,
                },
            ),
    )
}

/// The headers that are sent for the entries of a header object: those
/// whose value is a string, in their order.
pub open spec fn string_headers_of(entries: Seq<(Seq<char>, Option<Seq<char>>)>) -> Seq<
    (Seq<char>, Seq<char>),
>
    decreases entries.len(),
{
    if entries.len() == 0 {
        Seq::empty()
    } else {
        let rest = string_headers_of(entries.drop_last());
        match entries.last().1 {
            Some(v) => rest.push((entries.last().0, v)),
            None => rest,
        }
    }
}

/// Keeps the entries of a header object whose value is a string (`None`
/// stands for a value of any other kind).
pub fn string_headers(entries: &Vec<(String, Option<String>)>) -> (r: Vec<(String, String)>)
    ensures
        text_pairs(r@) == string_headers_of(header_entries(entries@)),
{
    let mut out: Vec<(String, String)> = Vec::new();
    let mut i: usize = 0;
    while i < entries.len()
        invariant
            i <= entries@.len(),
            text_pairs(out@) == string_headers_of(header_entries(entries@.take(i as int))),
        decreases entries@.len() - i,
    {
        let ghost before = out@;
        assert(header_entries(entries@.take(i + 1)).drop_last() =~= header_entries(
            entries@.take(i as int),
        ));
        match &entries[i].1 {
            Some(v) => {
                out.push((String::from_str(entries[i].0.as_str()), String::from_str(v.as_str())));
                assert(text_pairs(out@) =~= text_pairs(before).push(
                    (entries@[i as int].0@, v@),
                ));
            },
            None => {},
        }
        i = i + 1;
    }
    assert(entries@.take(entries@.len() as int) =~= entries@);
    out
}

/// The message for a method that is not one of the four.
pub open spec fn unsupported_method_message() -> Seq<char> {
    "Unsupported HTTP method"@
}

/// The request that follows from a parsed URL (or its error message), a
/// lowercased method name, the header object's entries (`None` where the
/// headers were absent or not an object) and the body.
pub open spec fn plan_outcome(
    url: Result<Seq<char>, Seq<char>>,
    lowered: Seq<char>,
    headers: Option<Seq<(Seq<char>, Option<Seq<char>>)>>,
) -> Result<(HttpMethod, Seq<char>, Seq<(Seq<char>, Seq<char>)>), Seq<char>> {
    match url {
        Err(e) => Err(e),
        Ok(u) => match method_of(lowered) {
            None => Err(unsupported_method_message()),
            Some(m) => Ok(
                (
                    m,
                    u,
                    match headers {
                        Some(h) => string_headers_of(h),
                        None => Seq::empty(),
                    },
                ),
            ),
        },
    }
}

pub open spec fn plan_matches(
    r: Result<HttpPlan, String>,
    outcome: Result<(HttpMethod, Seq<char>, Seq<(Seq<char>, Seq<char>)>), Seq<char>>,
    body: Option<String>,
) -> bool {
    match r {
        Ok(p) => outcome == Ok::<(HttpMethod, Seq<char>, Seq<(Seq<char>, Seq<char>)>), Seq<char>>(
            (p.method, p.url@, text_pairs(p.headers@)),
        ) && p.body == body,
        Err(e) => outcome == Err::<(HttpMethod, Seq<char>, Seq<(Seq<char>, Seq<char>)>), Seq<char>>(
            e@,
        ),
    }
}

pub open spec fn opt_entries(h: Option<Vec<(String, Option<String>)>>) -> Option<
    Seq<(Seq<char>, Option<Seq<char>>)>,
> {
    match h {
        Some(v) => Some(header_entries(v@)),
        None => None,
    }
}

/// Shapes a request from a parsed URL (or its error message) and a
/// lowercased method name. A bad URL is reported first, then an unsupported
/// method.
pub fn plan_http_request(
    url: Result<String, String>,
    lowered_method: &str,
    headers: Option<Vec<(String, Option<String>)>>,
    body: Option<String>,
) -> (r: Result<HttpPlan, String>)
    ensures
        plan_matches(
            r,
            plan_outcome(
                match url {
                    Ok(u) => Ok::<Seq<char>, Seq<char>>(u@),
                    Err(e) => Err::<Seq<char>, Seq<char>>(e@),
                },
                lowered_method@,
                opt_entries(headers),
            ),
            body,
        ),
{
    let url = match url {
        Ok(u) => u,
        Err(e) => {
            return Err(e);
        },
    };
    let method = match select_method(lowered_method) {
        Some(m) => m,
        None => {
            return Err(String::from_str("Unsupported HTTP method"));
        },
    };
    let headers = match &headers {
        Some(h) => string_headers(h),
        None => {
            let v: Vec<(String, String)> = Vec::new();
            assert(text_pairs(v@) =~= Seq::empty());
            v
        },
    };
    Ok(HttpPlan { method, url, headers, body })
}

/// Checks the URL and the method of an outbound request and keeps the
/// string-valued headers. The method name is matched without regard to
/// case.
pub fn prepare_http_request(
    method: &str,
    url: &str,
    headers: Option<Vec<(String, Option<String>)>>,
    body: Option<String>,
) -> (r: Result<HttpPlan, String>)
    ensures
        plan_matches(
            r,
            plan_outcome(url_parse_outcome(url@), lowercase_of(method@), opt_entries(headers)),
            body,
        ),
{
    let parsed = parse_url(url);
    let lowered = lowercase(method);
    plan_http_request(parsed, lowered.as_str(), headers, body)
}

/// A status that counts as success: 200 through 299.
pub open spec fn is_success_status(code: u16) -> bool {
    200 <= code <= 299
}

/// Judges a download's response status: success goes on, anything else is
/// an error that quotes the status as it is displayed (`404 Not Found`).
pub fn check_download_status(code: u16, status_text: &str) -> (r: Result<(), String>)
    ensures
        match r {
            Ok(()) => is_success_status(code),
            Err(e) => !is_success_status(code) && e@ == "HTTP error: "@ + status_text@,
        },
{
    if 200 <= code && code <= 299 {
        Ok(())
    } else {
        let mut e = String::from_str("HTTP error: ");
        e.append(status_text);
        Err(e)
    }
}

} // verus!

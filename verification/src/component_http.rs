//! Preparing a JSON call to an external HTTP endpoint and reporting its outcome.
use vstd::prelude::*;
use vstd::slice::slice_to_vec;
use vstd::utf8::encode_utf8;

use crate::component::{describe_payload_for, descriptor_json, handle_message_for, handled_message};
use crate::json::{jv, jv_entries, lemma_jv_entries, render, Json, JsonValue};
use crate::text::{decimal, lower_seq, push_str, to_ascii_lowercase, trim, trimmed, u64_to_decimal};

verus! {

broadcast use vstd::string::group_string_axioms;

pub const COMPONENT_NAME: &'static str = "component-http";

/// What the component is asked to call.
#[derive(Debug, PartialEq)]
pub struct HttpRequestInput {
    pub url: String,
    pub method: Option<String>,
    /// The members of the `headers` object, in the order that the object holds them.
    pub headers: Vec<(String, JsonValue)>,
    pub body: JsonValue,
    pub timeout_ms: Option<u64>,
    pub ignore_missing_url: bool,
}

/// What the component reports of a call.
#[derive(Debug, PartialEq)]
pub struct HttpResponseOutput {
    pub ok: bool,
    pub status: u16,
    pub url: String,
    pub body: JsonValue,
    pub error: Option<String>,
}

/// The request line, the headers and the body bytes of a call.
pub type PreparedRequest = (String, Vec<(String, String)>, Vec<u8>);

/// The serialization of the URL that `url::Url::parse` makes of `input`, or the
/// text of its parse error.
pub uninterp spec fn url_parse(input: Seq<char>) -> Result<Seq<char>, Seq<char>>;

/// The upper-case form of `s` that `str::to_uppercase` gives.
pub uninterp spec fn unicode_upper(s: Seq<char>) -> Seq<char>;

/// Parses a URL. Calls `url::Url::parse` and gives back the parsed URL in its
/// serialized form (its `Display`), or the `Display` text of the parse error.
#[verifier::external_body]
pub(crate) fn parse_url(input: &str) -> (r: Result<String, String>)
    ensures
        match r {
            Ok(u) => url_parse(input@) == Ok::<Seq<char>, Seq<char>>(u@),
            Err(e) => url_parse(input@) == Err::<Seq<char>, Seq<char>>(e@),
        },
{
    match url::Url::parse(input) {
        Ok(parsed) => Ok(parsed.to_string()),
        Err(error) => Err(error.to_string()),
    }
}

/// Upper-cases a string. Calls `str::to_uppercase`, which maps each character
/// to its Unicode upper-case form.
#[verifier::external_body]
fn to_uppercase(s: &str) -> (r: String)
    ensures
        r@ == unicode_upper(s@),
{
    s.to_uppercase()
}

/// The text that a header value is sent with: a string as it is, any other value as JSON text.
pub open spec fn header_text(v: Json) -> Seq<char> {
    match v {
        Json::Str(s) => s,
        _ => render(v),
    }
}

/// The headers with lower-cased names and their values as text, in the input's order.
pub open spec fn rendered_headers(h: Seq<(Seq<char>, Json)>) -> Seq<(Seq<char>, Seq<char>)> {
    h.map_values(|e: (Seq<char>, Json)| (lower_seq(e.0), header_text(e.1)))
}

pub open spec fn has_header(h: Seq<(Seq<char>, Seq<char>)>, name: Seq<char>) -> bool {
    exists|i: int| 0 <= i < h.len() && #[trigger] h[i].0 == name
}

/// The headers, with a JSON content type added when none is set.
pub open spec fn with_content_type(h: Seq<(Seq<char>, Seq<char>)>) -> Seq<(Seq<char>, Seq<char>)> {
    if has_header(h, "content-type"@) {
        h
    } else {
        h.push(("content-type"@, "application/json"@))
    }
}

/// The headers of a call keep each given header, its name lower-cased and its
/// value as text, in order, and carry a `content-type` header: the given one,
/// else `application/json` added after the others.
pub proof fn lemma_calls_carry_a_content_type(h: Seq<(Seq<char>, Json)>)
    ensures
        has_header(with_content_type(rendered_headers(h)), "content-type"@),
        forall|i: int|
            0 <= i < h.len() ==> #[trigger] with_content_type(rendered_headers(h))[i] == (
                lower_seq(h[i].0),
                header_text(h[i].1),
            ),
        !(exists|i: int| 0 <= i < h.len() && lower_seq(#[trigger] h[i].0) == "content-type"@) ==> (
        with_content_type(rendered_headers(h)).len() == h.len() + 1 && with_content_type(
            rendered_headers(h),
        )[h.len() as int] == ("content-type"@, "application/json"@)),
{
    let r = rendered_headers(h);
    if !has_header(r, "content-type"@) {
        let w = r.push(("content-type"@, "application/json"@));
        assert(w[r.len() as int] == ("content-type"@, "application/json"@));
        assert(w[r.len() as int].0 == "content-type"@);
        assert(has_header(w, "content-type"@));
    } else {
        let i = choose|i: int| 0 <= i < r.len() && #[trigger] r[i].0 == "content-type"@;
        assert(lower_seq(h[i].0) == "content-type"@);
    }
}

pub open spec fn header_views(h: Seq<(String, String)>) -> Seq<(Seq<char>, Seq<char>)> {
    h.map_values(|p: (String, String)| (p.0@, p.1@))
}

/// The method that a request is sent with: the given one upper-cased, `POST`
/// when none is given.
pub open spec fn method_of(method: Option<String>) -> Seq<char> {
    match method {
        Some(m) => unicode_upper(m@),
        None => "POST"@,
    }
}

/// A call that names no method is sent as a `POST` of its serialized URL.
pub proof fn lemma_calls_without_method_are_posts(p: PreparedRequest, input: HttpRequestInput, u: Seq<char>)
    requires
        input.method is None,
        prepared_as(p, input, u),
    ensures
        p.0@ == "POST "@ + u,
{
    reveal_strlit("POST");
    reveal_strlit("POST ");
    assert("POST"@ + seq![' '] =~= "POST "@);
    assert(p.0@ =~= "POST "@ + u);
}

/// Whether `r` is the call that `input` asks for, with `u` the serialized URL.
pub open spec fn prepared_as(r: PreparedRequest, input: HttpRequestInput, u: Seq<char>) -> bool {
    &&& r.0@ == method_of(input.method) + seq![' '] + u
    &&& header_views(r.1@) == with_content_type(rendered_headers(jv_entries(input.headers@)))
    &&& r.2@ == encode_utf8(render(input.body@))
}

/// Checks a call and puts together its request line (`METHOD url`), its headers
/// and its body. An empty URL gives empty parts when it may be ignored.
pub fn prepare_request(input: &HttpRequestInput) -> (r: Result<PreparedRequest, String>)
    ensures
        trimmed(input.url@).len() == 0 && input.ignore_missing_url ==> (r matches Ok(p) && p.0@.len()
            == 0 && p.1@.len() == 0 && p.2@.len() == 0),
        trimmed(input.url@).len() == 0 && !input.ignore_missing_url ==> (r matches Err(e) && e@
            == "url must not be empty"@),
        trimmed(input.url@).len() > 0 ==> match url_parse(input.url@) {
            Err(pe) => (r matches Err(e) && e@ == "invalid url: "@ + pe),
            Ok(u) => if input.timeout_ms == Some(0u64) {
                (r matches Err(e) && e@ == "timeout_ms must be greater than zero"@)
            } else {
                (r matches Ok(p) && prepared_as(p, *input, u))
            },
        },
        input.method is None && trimmed(input.url@).len() > 0 && input.timeout_ms != Some(0u64) ==> match url_parse(
            input.url@,
        ) {
            Ok(u) => (r matches Ok(p) && p.0@ == "POST "@ + u),
            Err(_) => r is Err,
        },
{
    if trim(input.url.as_str()).unicode_len() == 0 {
        if input.ignore_missing_url {
            return Ok((String::new(), Vec::new(), Vec::new()));
        }
        return Err("url must not be empty".to_string());
    }
    let parsed = match parse_url(input.url.as_str()) {
        Ok(u) => u,
        Err(error) => {
            let mut msg = "invalid url: ".to_string();
            push_str(&mut msg, error.as_str());
            return Err(msg);
        },
    };
    if let Some(timeout_ms) = input.timeout_ms {
        if timeout_ms == 0 {
            return Err("timeout_ms must be greater than zero".to_string());
        }
    }
    let method = match &input.method {
        Some(m) => to_uppercase(m.as_str()),
        None => "POST".to_string(),
    };
    let headers = render_headers(&input.headers);
    let text = input.body.render();
    let body = slice_to_vec(text.as_str().as_bytes());
    let mut line = method;
    crate::text::push_char(&mut line, ' ');
    push_str(&mut line, parsed.as_str());
    proof {
        assert(line@ == method_of(input.method) + seq![' '] + parsed@);
        if input.method is None {
            reveal_strlit("POST");
            reveal_strlit("POST ");
            assert(line@ =~= "POST "@ + parsed@);
        }
    }
    Ok((line, headers, body))
}

/// The headers of a call: each name lower-cased, each value as text, and a
/// JSON content type when none is given.
fn render_headers(headers: &Vec<(String, JsonValue)>) -> (r: Vec<(String, String)>)
    ensures
        header_views(r@) == with_content_type(rendered_headers(jv_entries(headers@))),
{
    proof {
        lemma_jv_entries(headers@);
    }
    let ghost want = rendered_headers(jv_entries(headers@));
    let mut out: Vec<(String, String)> = Vec::new();
    let mut seen_content_type = false;
    let mut i: usize = 0;
    while i < headers.len()
        invariant
            i <= headers@.len(),
            want == rendered_headers(jv_entries(headers@)),
            want.len() == headers@.len(),
            jv_entries(headers@).len() == headers@.len(),
            forall|j: int|
                0 <= j < headers@.len() ==> #[trigger] jv_entries(headers@)[j] == (
                    headers@[j].0@,
                    jv(headers@[j].1),
                ),
            header_views(out@) == want.subrange(0, i as int),
            seen_content_type == has_header(want.subrange(0, i as int), "content-type"@),
        decreases headers@.len() - i,
    {
        let name = to_ascii_lowercase(headers[i].0.as_str());
        let value = match headers[i].1.as_str() {
            Some(s) => s.clone(),
            None => headers[i].1.render(),
        };
        let is_ct = crate::json::str_eq(name.as_str(), "content-type");
        let ghost pre = want.subrange(0, i as int);
        proof {
            assert(want[i as int] == (name@, value@));
        }
        out.push((name, value));
        proof {
            let post = want.subrange(0, i + 1);
            assert(post == pre.push(want[i as int]));
            assert(header_views(out@) =~= post);
            if is_ct {
                assert(post[i as int].0 == "content-type"@);
            }
            if has_header(post, "content-type"@) && !is_ct {
                let k = choose|k: int| 0 <= k < post.len() && #[trigger] post[k].0 == "content-type"@;
                assert(k < i);
                assert(pre[k] == post[k]);
            }
            if seen_content_type {
                let k = choose|k: int| 0 <= k < pre.len() && #[trigger] pre[k].0 == "content-type"@;
                assert(post[k] == pre[k]);
            }
        }
        seen_content_type = seen_content_type || is_ct;
        i = i + 1;
    }
    proof {
        assert(want.subrange(0, headers@.len() as int) == want);
    }
    if !seen_content_type {
        let ghost pre = out@;
        out.push(("content-type".to_string(), "application/json".to_string()));
        proof {
            assert(header_views(out@) =~= header_views(pre).push(
                ("content-type"@, "application/json"@),
            ));
        }
    }
    out
}

/// Whether a status is in the 2xx range.
pub open spec fn is_success(status: u16) -> bool {
    200 <= status < 300
}

/// Reports the outcome of a call: `ok` for a 2xx status, and an error text otherwise.
pub fn finalize_response(url: &str, status: u16, body: JsonValue) -> (r: HttpResponseOutput)
    ensures
        r.ok == is_success(status),
        r.status == status,
        r.url@ == url@,
        r.body == body,
        is_success(status) ==> r.error is None,
        !is_success(status) ==> (r.error matches Some(e) && e@ == "request failed with status "@
            + decimal(status as nat)),
{
    let ok = 200 <= status && status < 300;
    let error = if ok {
        None
    } else {
        let mut msg = "request failed with status ".to_string();
        let digits = u64_to_decimal(status as u64);
        push_str(&mut msg, digits.as_str());
        Some(msg)
    };
    HttpResponseOutput { ok, status, url: url.to_string(), body, error }
}

/// The descriptor that the component reports as JSON text.
pub fn describe_payload() -> (r: String)
    ensures
        r@ == render(descriptor_json(COMPONENT_NAME@)),
{
    describe_payload_for(COMPONENT_NAME)
}

/// Echoes an operation and its trimmed input, prefixed with the component's name.
pub fn handle_message(operation: &str, input: &str) -> (r: String)
    ensures
        r@ == handled_message(COMPONENT_NAME@, operation@, input@),
{
    handle_message_for(COMPONENT_NAME, operation, input)
}

/// The JSON of a call's report, members in ascending key order.
pub open spec fn output_json(o: HttpResponseOutput) -> Json {
    Json::Object(
        seq![
            ("body"@, o.body@),
            (
                "error"@,
                match o.error {
                    Some(e) => Json::Str(e@),
                    None => Json::Null,
                },
            ),
            ("ok"@, Json::Bool(o.ok)),
            ("status"@, Json::Number(decimal(o.status as nat))),
            ("url"@, Json::Str(o.url@)),
        ],
    )
}

/// The reply to a call whose missing URL may be ignored.
pub open spec fn ignored_reply_json() -> Json {
    Json::Object(
        seq![
            ("body"@, Json::Null),
            ("ok"@, Json::Bool(true)),
            ("status"@, Json::Number("204"@)),
            ("url"@, Json::Str(""@)),
        ],
    )
}

/// The reply to a call that cannot be made.
pub open spec fn error_reply_json(error: Seq<char>) -> Json {
    Json::Object(
        seq![("error"@, Json::Str(error)), ("ok"@, Json::Bool(false)), ("status"@, Json::Number("500"@))],
    )
}

/// The body that a call answered by the host's mock carries.
pub open spec fn mocked_body_json() -> Json {
    Json::Object(seq![("mocked"@, Json::Bool(true))])
}

/// The reply of the host, where calls are answered by a mock: 204 with no body
/// for an ignored missing URL, the report of a 200 answer with the mock's body
/// and the request line (`METHOD url`) as its URL for a call that can be made,
/// and 500 with the error for one that cannot.
pub open spec fn http_reply_json(input: HttpRequestInput) -> Json {
    if trimmed(input.url@).len() == 0 {
        if input.ignore_missing_url {
            ignored_reply_json()
        } else {
            error_reply_json("url must not be empty"@)
        }
    } else {
        match url_parse(input.url@) {
            Err(pe) => error_reply_json("invalid url: "@ + pe),
            Ok(u) => if input.timeout_ms == Some(0u64) {
                error_reply_json("timeout_ms must be greater than zero"@)
            } else {
                Json::Object(
                    seq![
                        ("body"@, mocked_body_json()),
                        ("error"@, Json::Null),
                        ("ok"@, Json::Bool(true)),
                        ("status"@, Json::Number(decimal(200))),
                        ("url"@, Json::Str(method_of(input.method) + seq![' '] + u)),
                    ],
                )
            },
        }
    }
}

fn output_to_json(o: HttpResponseOutput) -> (r: JsonValue)
    ensures
        r@ == output_json(o),
{
    let ghost g = output_json(o);
    let error = match o.error {
        Some(e) => JsonValue::Str(e),
        None => JsonValue::Null,
    };
    let status = JsonValue::Number(u64_to_decimal(o.status as u64));
    assert(error@ == g->Object_0[1].1);
    assert(status@ == g->Object_0[3].1);
    let r = crate::json_build::obj5("body", o.body, "error", error, "ok", JsonValue::Bool(o.ok), "status", status, "url", JsonValue::Str(o.url));
    assert(r@->Object_0 =~= g->Object_0);
    r
}

fn mocked_body() -> (r: JsonValue)
    ensures
        r@ == mocked_body_json(),
{
    let e = vec![("mocked".to_string(), JsonValue::Bool(true))];
    proof {
        lemma_jv_entries(e@);
        assert(jv_entries(e@) =~= mocked_body_json()->Object_0);
    }
    JsonValue::Object(e)
}

fn error_reply(error: String) -> (r: JsonValue)
    ensures
        r@ == error_reply_json(error@),
{
    crate::json_build::obj3(
        "error",
        JsonValue::Str(error),
        "ok",
        JsonValue::Bool(false),
        "status",
        JsonValue::Number("500".to_string()),
    )
}

/// The reply of the host to a call, where calls are answered by a mock.
pub fn http_reply(input: &HttpRequestInput) -> (r: JsonValue)
    ensures
        r@ == http_reply_json(*input),
{
    match prepare_request(input) {
        Ok((line, _, _)) => {
            if line.unicode_len() == 0 {
                proof {
                    if trimmed(input.url@).len() > 0 {
                        assert(line@.len() > 0);
                    }
                }
                crate::json_build::obj4(
                    "body",
                    JsonValue::Null,
                    "ok",
                    JsonValue::Bool(true),
                    "status",
                    JsonValue::Number("204".to_string()),
                    "url",
                    JsonValue::from_str(""),
                )
            } else {
                let out = finalize_response(line.as_str(), 200, mocked_body());
                let r = output_to_json(out);
                assert(trimmed(input.url@).len() > 0);
                assert(url_parse(input.url@) is Ok);
                assert(input.timeout_ms != Some(0u64));
                assert(out.error is None);
                assert(r@->Object_0 =~= http_reply_json(*input)->Object_0);
                r
            }
        },
        Err(e) => {
            let r = error_reply(e);
            assert(r@ == http_reply_json(*input));
            r
        },
    }
}

} // verus!

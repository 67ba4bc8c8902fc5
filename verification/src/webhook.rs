//! The headers a webhook request carries: the run's own headers, the
//! headers of the payload, and its content type.

use vstd::prelude::*;
use crate::text::{ascii_lower, push_char};
use crate::strings::{concat, owned, same_text};
use crate::dispatch::WebhookAttemptDetails;

verus! {

broadcast use vstd::seq_lib::group_filter_ensures;

/// The header that names the run a request belongs to.
pub const RUN_ID_HEADER: &'static str = "x-cronback-run-id";

/// The header that names the project a request belongs to.
pub const PROJECT_ID_HEADER: &'static str = "x-cronback-project-id";

/// The header that numbers the delivery attempt of a webhook.
pub const DELIVERY_ATTEMPT_NUM_HEADER: &'static str = "x-cronback-delivery-attempt-number";

/// The content-type header, as header maps spell it.
pub const CONTENT_TYPE_HEADER: &'static str = "content-type";

/// A header: a name and a value.
pub struct Header {
    pub name: String,
    pub value: String,
}

/// The body a webhook sends, with its headers and content type.
pub struct Payload {
    pub headers: Vec<Header>,
    pub content_type: String,
    pub body: String,
}

/// A header as two texts.
pub type HeaderText = (Seq<char>, Seq<char>);

/// The headers of a list as texts.
pub open spec fn header_texts(hs: Seq<Header>) -> Seq<HeaderText> {
    hs.map_values(|h: Header| (h.name@, h.value@))
}

/// A text with its ASCII capitals made lower case.
pub open spec fn lower_text(s: Seq<char>) -> Seq<char> {
    s.map_values(|c: char| ascii_lower(c))
}

/// Whether `http::HeaderName::from_bytes` accepts a name.
pub uninterp spec fn header_name_accepted(name: Seq<char>) -> bool;

/// `http::HeaderName::from_bytes`: the name as the header map keeps it, when
/// accepted. Its table maps each accepted byte to itself but for ASCII
/// capitals, which become lower case.
#[verifier::external_body]
fn parse_header_name(name: &str) -> (r: Option<String>)
    ensures
        r is Some <==> header_name_accepted(name@),
        r matches Some(n) ==> n@ == lower_text(name@),
{
    match http::HeaderName::from_bytes(name.as_bytes()) {
        Ok(n) => Some(n.as_str().to_string()),
        Err(_) => None,
    }
}

/// Whether a character may stand in a header value: a tab, or anything but
/// the ASCII control characters.
pub open spec fn header_value_char(c: char) -> bool {
    c == '\t' || (c as u32 >= 32 && c as u32 != 127)
}

/// Whether a text is a valid header value.
pub open spec fn header_value_accepted(v: Seq<char>) -> bool {
    forall|i: int| 0 <= i < v.len() ==> header_value_char(#[trigger] v[i])
}

/// `http::HeaderValue::from_str`: whether a text is a valid header value.
/// Each byte of the text must be a tab or at least 32 and not 127; the
/// bytes of a non-ASCII character are all at least 128.
#[verifier::external_body]
fn is_header_value(value: &str) -> (ok: bool)
    ensures
        ok == header_value_accepted(value@),
{
    http::HeaderValue::from_str(value).is_ok()
}

/// The decimal digit for a number below ten.
pub open spec fn digit_char(d: nat) -> char {
    if d == 0 {
        '0'
    } else if d == 1 {
        '1'
    } else if d == 2 {
        '2'
    } else if d == 3 {
        '3'
    } else if d == 4 {
        '4'
    } else if d == 5 {
        '5'
    } else if d == 6 {
        '6'
    } else if d == 7 {
        '7'
    } else if d == 8 {
        '8'
    } else {
        '9'
    }
}

/// The decimal text of a number, without leading zeros.
pub open spec fn decimal(n: nat) -> Seq<char>
    decreases n,
{
    if n < 10 {
        seq![digit_char(n)]
    } else {
        decimal(n / 10).push(digit_char(n % 10))
    }
}

fn digit(d: u32) -> (c: char)
    requires
        d < 10,
    ensures
        c == digit_char(d as nat),
{
    if d == 0 {
        '0'
    } else if d == 1 {
        '1'
    } else if d == 2 {
        '2'
    } else if d == 3 {
        '3'
    } else if d == 4 {
        '4'
    } else if d == 5 {
        '5'
    } else if d == 6 {
        '6'
    } else if d == 7 {
        '7'
    } else if d == 8 {
        '8'
    } else {
        '9'
    }
}

/// The decimal text of a number.
pub fn decimal_text(n: u32) -> (s: String)
    ensures
        s@ == decimal(n as nat),
    decreases n,
{
    if n < 10 {
        let mut s = String::new();
        push_char(&mut s, digit(n));
        s
    } else {
        let mut s = decimal_text(n / 10);
        push_char(&mut s, digit(n % 10));
        s
    }
}

/// The headers that say which run and which attempt a request is.
pub open spec fn run_headers(run_id: Seq<char>, project_id: Seq<char>, attempt_num: u32) -> Seq<HeaderText> {
    seq![
        (RUN_ID_HEADER@, run_id),
        (PROJECT_ID_HEADER@, project_id),
        (DELIVERY_ATTEMPT_NUM_HEADER@, decimal(attempt_num as nat)),
    ]
}

/// Whether every header of a list has an accepted name and value.
pub open spec fn headers_accepted(hs: Seq<Header>) -> bool {
    forall|i: int| 0 <= i < hs.len() ==> header_name_accepted(#[trigger] hs[i].name@)
        && header_value_accepted(hs[i].value@)
}

/// The headers of a list with their names as the header map keeps them.
pub open spec fn normalized(hs: Seq<Header>) -> Seq<HeaderText> {
    hs.map_values(|h: Header| (lower_text(h.name@), h.value@))
}

/// Whether a list of headers holds one with the given name.
pub open spec fn has_header(hs: Seq<HeaderText>, name: Seq<char>) -> bool {
    exists|i: int| 0 <= i < hs.len() && (#[trigger] hs[i]).0 == name
}

/// The headers of a request whose payload brings `user` headers and a
/// content type: the run's headers that the payload does not name, then the
/// payload's headers, the content type last and only once.
pub open spec fn merged_headers(base: Seq<HeaderText>, user: Seq<HeaderText>, content_type: Seq<char>) -> Seq<
    HeaderText,
> {
    base.filter(|h: HeaderText| !has_header(user, h.0) && h.0 != CONTENT_TYPE_HEADER@) + user.filter(
        |h: HeaderText| h.0 != CONTENT_TYPE_HEADER@,
    ) + seq![(CONTENT_TYPE_HEADER@, content_type)]
}

/// The message of an attempt whose payload holds an invalid header.
pub open spec fn invalid_header_map_message() -> Seq<char> {
    "Bad request: Invalid header map"@
}

/// The message of an attempt whose payload has an invalid content type.
pub open spec fn invalid_content_type_message() -> Seq<char> {
    "Bad request: Invalid content-type header value"@
}

fn holds_header(hs: &Vec<Header>, name: &str) -> (r: bool)
    ensures
        r == has_header(header_texts(hs@), name@),
{
    let mut i: usize = 0;
    while i < hs.len()
        invariant
            i <= hs@.len(),
            forall|j: int| 0 <= j < i ==> hs@[j].name@ != name@,
        decreases hs@.len() - i,
    {
        if same_text(hs[i].name.as_str(), name) {
            assert(header_texts(hs@)[i as int].0 == name@);
            return true;
        }
        i = i + 1;
    }
    assert forall|j: int| 0 <= j < header_texts(hs@).len() implies (#[trigger] header_texts(hs@)[j]).0 != name@ by {
        assert(header_texts(hs@)[j].0 == hs@[j].name@);
    }
    false
}

/// What composing the headers of a webhook request gives: the run's headers
/// alone without a payload; with one, an error when one of its headers or
/// its content type is refused, else the run's headers merged with its own.
pub open spec fn headers_outcome(
    run_id: Seq<char>,
    project_id: Seq<char>,
    attempt_num: u32,
    payload: Option<&Payload>,
    r: Result<Vec<Header>, WebhookAttemptDetails>,
) -> bool {
    match payload {
        None => r matches Ok(hs) && header_texts(hs@) == run_headers(run_id, project_id, attempt_num),
        Some(p) => if !headers_accepted(p.headers@) {
            r matches Err(d) && d.response_code is None && (d.error_message matches Some(m) && m@
                == invalid_header_map_message())
        } else if !header_value_accepted(p.content_type@) {
            r matches Err(d) && d.response_code is None && (d.error_message matches Some(m) && m@
                == invalid_content_type_message())
        } else {
            r matches Ok(hs) && header_texts(hs@) == merged_headers(
                run_headers(run_id, project_id, attempt_num),
                normalized(p.headers@),
                p.content_type@,
            )
        },
    }
}

/// The headers of a webhook request for an attempt of a run. With a payload,
/// its headers replace the run's headers of the same name and its content
/// type is set last; a payload header whose name or value the header map
/// refuses, or a content type it refuses, ends the attempt with an error.
pub fn webhook_headers(run_id: &str, project_id: &str, attempt_num: u32, payload: Option<&Payload>) -> (r: Result<
    Vec<Header>,
    WebhookAttemptDetails,
>)
    requires
        header_value_accepted(run_id@),
        header_value_accepted(project_id@),
    ensures
        headers_outcome(run_id@, project_id@, attempt_num, payload, r),
{
    proof {
        reveal_strlit("x-cronback-run-id");
        reveal_strlit("x-cronback-project-id");
        reveal_strlit("x-cronback-delivery-attempt-number");
        reveal_strlit("content-type");
    }
    let mut base: Vec<Header> = Vec::new();
    base.push(Header { name: owned(RUN_ID_HEADER), value: owned(run_id) });
    base.push(Header { name: owned(PROJECT_ID_HEADER), value: owned(project_id) });
    base.push(Header { name: owned(DELIVERY_ATTEMPT_NUM_HEADER), value: decimal_text(attempt_num) });
    let ghost base_texts = run_headers(run_id@, project_id@, attempt_num);
    assert(header_texts(base@) == base_texts);
    let p = match payload {
        None => {
            return Ok(base);
        },
        Some(p) => p,
    };
    // The payload's headers, as the header map keeps them.
    let mut user: Vec<Header> = Vec::new();
    let mut i: usize = 0;
    while i < p.headers.len()
        invariant
            i <= p.headers@.len(),
            payload == Some(p),
            header_texts(user@) == normalized(p.headers@.take(i as int)),
            headers_accepted(p.headers@.take(i as int)),
        decreases p.headers@.len() - i,
    {
        let h = &p.headers[i];
        let name = match parse_header_name(h.name.as_str()) {
            Some(n) => n,
            None => {
                assert(!headers_accepted(p.headers@)) by {
                    assert(!header_name_accepted(p.headers@[i as int].name@));
                }
                return Err(WebhookAttemptDetails::with_error(owned("Bad request: Invalid header map")));
            },
        };
        if !is_header_value(h.value.as_str()) {
            assert(!headers_accepted(p.headers@)) by {
                assert(!header_value_accepted(p.headers@[i as int].value@));
            }
            return Err(WebhookAttemptDetails::with_error(owned("Bad request: Invalid header map")));
        }
        let ghost before = user@;
        user.push(Header { name, value: h.value.clone() });
        assert(p.headers@.take(i + 1) == p.headers@.take(i as int).push(p.headers@[i as int]));
        assert(header_texts(user@) == header_texts(before).push((lower_text(h.name@), h.value@)));
        assert(normalized(p.headers@.take(i + 1)) == normalized(p.headers@.take(i as int)).push(
            (lower_text(h.name@), h.value@),
        ));
        i = i + 1;
    }
    assert(p.headers@.take(p.headers@.len() as int) == p.headers@);
    if !is_header_value(p.content_type.as_str()) {
        return Err(WebhookAttemptDetails::with_error(owned("Bad request: Invalid content-type header value")));
    }
    let ghost user_texts = header_texts(user@);
    let ghost keep_base = |h: HeaderText| !has_header(user_texts, h.0) && h.0 != CONTENT_TYPE_HEADER@;
    let ghost keep_user = |h: HeaderText| h.0 != CONTENT_TYPE_HEADER@;
    let mut out: Vec<Header> = Vec::new();
    let mut j: usize = 0;
    while j < base.len()
        invariant
            j <= base@.len(),
            base_texts == header_texts(base@),
            user_texts == header_texts(user@),
            keep_base == (|h: HeaderText| !has_header(user_texts, h.0) && h.0 != CONTENT_TYPE_HEADER@),
            header_texts(out@) == header_texts(base@).take(j as int).filter(keep_base),
        decreases base@.len() - j,
    {
        let ghost before = header_texts(out@);
        let ghost b = header_texts(base@)[j as int];
        assert(header_texts(base@).take(j + 1) == header_texts(base@).take(j as int).push(b));
        proof {
            header_texts(base@).take(j as int).lemma_filter_push(b, keep_base);
        }
        let named = holds_header(&user, base[j].name.as_str());
        if !named && !same_text(base[j].name.as_str(), CONTENT_TYPE_HEADER) {
            out.push(Header { name: base[j].name.clone(), value: base[j].value.clone() });
            assert(header_texts(out@) == before.push(b));
        }
        j = j + 1;
    }
    assert(header_texts(base@).take(base@.len() as int) == header_texts(base@));
    let ghost from_base = header_texts(out@);
    let mut k: usize = 0;
    while k < user.len()
        invariant
            k <= user@.len(),
            user_texts == header_texts(user@),
            keep_user == (|h: HeaderText| h.0 != CONTENT_TYPE_HEADER@),
            header_texts(out@) == from_base + header_texts(user@).take(k as int).filter(keep_user),
        decreases user@.len() - k,
    {
        let ghost before = header_texts(out@);
        let ghost u = header_texts(user@)[k as int];
        assert(header_texts(user@).take(k + 1) == header_texts(user@).take(k as int).push(u));
        proof {
            header_texts(user@).take(k as int).lemma_filter_push(u, keep_user);
        }
        if !same_text(user[k].name.as_str(), CONTENT_TYPE_HEADER) {
            out.push(Header { name: user[k].name.clone(), value: user[k].value.clone() });
            assert(header_texts(out@) == before.push(u));
        }
        k = k + 1;
    }
    assert(header_texts(user@).take(user@.len() as int) == header_texts(user@));
    let ghost before_ct = header_texts(out@);
    out.push(Header { name: owned(CONTENT_TYPE_HEADER), value: p.content_type.clone() });
    assert(header_texts(out@) == before_ct.push((CONTENT_TYPE_HEADER@, p.content_type@)));
    assert(headers_accepted(p.headers@));
    assert(header_value_accepted(p.content_type@));
    assert(header_texts(out@) == merged_headers(base_texts, normalized(p.headers@), p.content_type@));
    Ok(out)
}

/// The message of an attempt whose webhook failed validation.
pub open spec fn validation_failure_message(reason: Seq<char>) -> Seq<char> {
    "Webhook validation failure: "@ + reason
}

/// Prepares the request of a webhook attempt. The webhook is validated
/// first (`validation` holds the outcome, with the reason of a failure):
/// a webhook that fails validation ends the attempt with an error and no
/// request is made. Otherwise the request's headers are composed as
/// `webhook_headers` does.
pub fn prepare_webhook_request(
    validation: Result<(), String>,
    run_id: &str,
    project_id: &str,
    attempt_num: u32,
    payload: Option<&Payload>,
) -> (r: Result<Vec<Header>, WebhookAttemptDetails>)
    requires
        validation is Ok ==> header_value_accepted(run_id@) && header_value_accepted(project_id@),
    ensures
        match validation {
            Err(reason) => r matches Err(d) && d.response_code is None && (d.error_message matches Some(m)
                && m@ == validation_failure_message(reason@)),
            Ok(_) => headers_outcome(run_id@, project_id@, attempt_num, payload, r),
        },
{
    match validation {
        Err(reason) => Err(WebhookAttemptDetails::with_error(concat("Webhook validation failure: ", reason.as_str()))),
        Ok(()) => webhook_headers(run_id, project_id, attempt_num, payload),
    }
}

} // verus!

use vstd::prelude::*;
use vstd::string::*;
use crate::error::SlackErr;
use crate::json::{Json, str_field, bool_field, field, get_str, get_bool, parse_json, json_accepts, json_tree};

verus! {

#[verifier::external_type_specification]
#[verifier::external_body]
pub struct ExUrl(url::Url);

#[verifier::external_type_specification]
#[verifier::external_body]
pub struct ExParseError(url::ParseError);

/// Whether `url::Url::parse` accepts the text as an absolute URL.
pub uninterp spec fn url_accepts(s: Seq<char>) -> bool;

/// Relies on `url::Url::parse`: `Ok` exactly for the texts it accepts.
#[verifier::external_body]
fn parse_url(s: &str) -> (r: Result<url::Url, url::ParseError>)
    ensures
        r is Ok <==> url_accepts(s@),
{
    url::Url::parse(s)
}

/// The body of the connection-open answer.
pub struct HandshakeResponse {
    pub ok: bool,
    pub url: Option<String>,
    pub error: Option<String>,
}

/// `h` holds what the tree `j` holds.
pub open spec fn handshake_matches(j: Json, h: HandshakeResponse) -> bool {
    &&& bool_field(j, "ok"@) == Some(h.ok)
    &&& (match h.url { Some(u) => str_field(j, "url"@) == Some(u@), None => str_field(j, "url"@) is None })
    &&& (match h.error { Some(e) => str_field(j, "error"@) == Some(e@), None => str_field(j, "error"@) is None })
}

/// The error of a rejected handshake: the server's `error` text, verbatim, or
/// the empty text where it gave none.
pub open spec fn rejection_reason(h: HandshakeResponse) -> Seq<char> {
    match h.error {
        Some(e) => e@,
        None => Seq::empty(),
    }
}

/// Whether the answer yields a socket URL.
pub open spec fn handshake_succeeds(h: HandshakeResponse) -> bool {
    h.ok && (h.url matches Some(u) && url_accepts(u@))
}

/// Reads the answer's body tree; `ok` must be a boolean.
pub fn decode_handshake(j: &Json) -> (r: Result<HandshakeResponse, SlackErr>)
    ensures
        r is Ok <==> bool_field(*j, "ok"@) is Some,
        r matches Ok(h) ==> handshake_matches(*j, h),
        r matches Err(e) ==> e is Decode,
{
    match get_bool(j, "ok") {
        Some(ok) => Ok(HandshakeResponse { ok, url: get_str(j, "url"), error: get_str(j, "error") }),
        None => Err(SlackErr::Decode(String::from_str("missing or mistyped member: ok"))),
    }
}

/// Turns the answer into the URL to open: a refusal carries the server's
/// reason; a success whose URL does not parse is a malformed endpoint.
pub fn check_handshake(h: &HandshakeResponse) -> (r: Result<url::Url, SlackErr>)
    ensures
        r is Ok <==> handshake_succeeds(*h),
        !h.ok ==> (r matches Err(SlackErr::HandshakeRejected(m)) && m@ == rejection_reason(*h)),
        h.ok && !handshake_succeeds(*h) ==> r matches Err(SlackErr::MalformedEndpoint(_)),
{
    if !h.ok {
        let reason = match &h.error {
            Some(e) => e.clone(),
            None => String::new(),
        };
        return Err(SlackErr::HandshakeRejected(reason));
    }
    match &h.url {
        Some(u) => match parse_url(u.as_str()) {
            Ok(url) => Ok(url),
            Err(_) => Err(SlackErr::MalformedEndpoint(u.clone())),
        },
        None => Err(SlackErr::MalformedEndpoint(String::new())),
    }
}

/// The socket URL from the body of the connection-open answer.
pub fn handshake_url(body: &str) -> (r: Result<url::Url, SlackErr>)
    ensures
        !json_accepts(body@) ==> r matches Err(SlackErr::Decode(_)),
        json_accepts(body@) ==> match decode_handshake_spec(json_tree(body@)) {
            None => r matches Err(SlackErr::Decode(_)),
            Some((ok, u, e)) => (r is Ok <==> ok && (u matches Some(x) && url_accepts(x)))
                && (!ok ==> (r matches Err(SlackErr::HandshakeRejected(m)) && m@ == e)),
        },
{
    match parse_json(body) {
        Some(j) => match decode_handshake(&j) {
            Ok(h) => check_handshake(&h),
            Err(e) => Err(e),
        },
        None => Err(SlackErr::Decode(String::from_str("handshake answer is not JSON"))),
    }
}

/// What is read from an answer's tree: `ok`, the URL text if any, and the
/// rejection reason (empty where none is given).
pub open spec fn decode_handshake_spec(j: Json) -> Option<(bool, Option<Seq<char>>, Seq<char>)> {
    match bool_field(j, "ok"@) {
        Some(ok) => Some((ok, str_field(j, "url"@), match str_field(j, "error"@) { Some(e) => e, None => Seq::empty() })),
        None => None,
    }
}

/// An answer with `ok: true` and a URL that parses always yields that URL;
/// one with `ok: false` is always refused with its reason, verbatim.
pub proof fn handshake_outcomes(h: HandshakeResponse)
    ensures
        (h.ok && (h.url matches Some(u) && url_accepts(u@))) ==> handshake_succeeds(h),
        !h.ok ==> !handshake_succeeds(h),
        !h.ok ==> rejection_reason(h) == match h.error { Some(e) => e@, None => Seq::empty() },
{
}

} // verus!

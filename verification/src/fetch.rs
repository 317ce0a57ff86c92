//! The fetch pipeline's decision logic: URL and input validation, header
//! and payload parsing, the pre-network gate (cooldown plus validation),
//! and the size-gated classification of the response.

use crate::classify::{classify, classify_shape, DeliveryPayload};
use crate::limiter::{admit_decision, admit_record, AdmitDecision, RateLimiter};
use crate::outside::{compact_json, compact_json_of, json_object_pairs, json_object_view, url_scheme, url_scheme_of};
use crate::strutil::{dec_str, trim_spec, trim_str, u64_to_dec};
use vstd::prelude::*;
use vstd::string::StrSliceExecFns;
use vstd::string::StringExecFns;

verus! {

/// Bytes above this cannot be attached as a file.
pub const MAX_FILE_SIZE: usize = 10_000_000;

/// Characters above this cannot be sent inline as one chat message.
pub const MAX_MESSAGE_SIZE: usize = 1900;

/// Seconds granted to one outbound HTTP request.
pub const TIMEOUT_SECS: u64 = 5;

/// Seconds an actor waits between admitted calls.
pub const COOLDOWN_SECS: u64 = 10;

/// Whether `s` parses as an absolute URL with an `http` or `https` scheme.
pub open spec fn url_ok(s: Seq<char>) -> bool {
    url_scheme_of(s) matches Some(sch) && (sch == "http"@ || sch == "https"@)
}

/// The message rejecting a URL that is not `http(s)`.
pub open spec fn url_error_notice() -> Seq<char> {
    "URL \u{306f} http(s):// \u{3067}\u{59cb}\u{307e}\u{308b}\u{5fc5}\u{8981}\u{304c}\u{3042}\u{308a}\u{307e}\u{3059}"@
}

/// Validates that `input` is an absolute `http(s)` URL.
pub fn validate_url(input: &str) -> (r: Result<(), String>)
    ensures
        r is Ok <==> url_ok(input@),
        r matches Err(m) ==> m@ == url_error_notice(),
{
    match url_scheme(input) {
        Some(sch) => {
            if crate::strutil::str_eq(sch.as_str(), "http") || crate::strutil::str_eq(
                sch.as_str(),
                "https",
            ) {
                Ok(())
            } else {
                Err(
                    String::from_str(
                        "URL \u{306f} http(s):// \u{3067}\u{59cb}\u{307e}\u{308b}\u{5fc5}\u{8981}\u{304c}\u{3042}\u{308a}\u{307e}\u{3059}",
                    ),
                )
            }
        },
        None => Err(
            String::from_str(
                "URL \u{306f} http(s):// \u{3067}\u{59cb}\u{307e}\u{308b}\u{5fc5}\u{8981}\u{304c}\u{3042}\u{308a}\u{307e}\u{3059}",
            ),
        ),
    }
}

/// The message for header text that is not JSON.
pub open spec fn header_syntax_notice() -> Seq<char> {
    "\u{30d8}\u{30c3}\u{30c0}\u{30fc} JSON \u{306e}\u{89e3}\u{6790}\u{306b}\u{5931}\u{6557}\u{3057}\u{307e}\u{3057}\u{305f}"@
}

/// The message for header JSON that is not an object.
pub open spec fn header_object_notice() -> Seq<char> {
    "\u{30d8}\u{30c3}\u{30c0}\u{30fc}\u{306f} JSON \u{30aa}\u{30d6}\u{30b8}\u{30a7}\u{30af}\u{30c8}\u{3067}\u{3042}\u{308b}\u{5fc5}\u{8981}\u{304c}\u{3042}\u{308a}\u{307e}\u{3059}"@
}

/// The message for a request body that is not JSON.
pub open spec fn payload_syntax_notice() -> Seq<char> {
    "\u{30da}\u{30a4}\u{30ed}\u{30fc}\u{30c9} JSON \u{306e}\u{89e3}\u{6790}\u{306b}\u{5931}\u{6557}\u{3057}\u{307e}\u{3057}\u{305f}"@
}

/// One header entry as sent: the key, and the value's literal text when the
/// value was a JSON string, else the value's JSON serialization.
pub open spec fn header_value(e: (Seq<char>, Option<Seq<char>>, Seq<char>)) -> (Seq<char>, Seq<char>) {
    match e.1 {
        Some(l) => (e.0, l),
        None => (e.0, e.2),
    }
}

/// The header pairs of the object text `s`, in the parser's order.
pub open spec fn header_pairs(s: Seq<char>) -> Seq<(Seq<char>, Seq<char>)> {
    (json_object_view(s)->Ok_0).map_values(|e: (Seq<char>, Option<Seq<char>>, Seq<char>)| header_value(e))
}

/// Whether the header text `s` is accepted: blank text stands for no
/// headers, anything else must be a JSON object.
pub open spec fn headers_ok(s: Seq<char>) -> bool {
    trim_spec(s).len() == 0 || json_object_view(s) is Ok
}

/// The accepted header pairs of `s`: none for blank text.
pub open spec fn headers_of(s: Seq<char>) -> Seq<(Seq<char>, Seq<char>)> {
    if trim_spec(s).len() == 0 {
        Seq::empty()
    } else {
        header_pairs(s)
    }
}

/// Parses a free-form header string: blank means no headers; otherwise the
/// text must be a JSON object, whose values are taken as their literal text
/// when they are strings and as their JSON serialization otherwise.
pub fn parse_headers_json(s: &str) -> (r: Result<Vec<(String, String)>, String>)
    ensures
        r is Ok <==> headers_ok(s@),
        r matches Ok(v) ==> v@.len() == headers_of(s@).len() && forall|i: int|
            0 <= i < v@.len() ==> (#[trigger] v@[i]).0@ == headers_of(s@)[i].0 && v@[i].1@
                == headers_of(s@)[i].1,
        r matches Err(m) ==> (json_object_view(s@) == Err::<Seq<(Seq<char>, Option<Seq<char>>, Seq<char>)>, bool>(false) && m@ == header_syntax_notice()
            || json_object_view(s@) == Err::<Seq<(Seq<char>, Option<Seq<char>>, Seq<char>)>, bool>(true) && m@ == header_object_notice()),
{
    let t: &str = trim_str(s);
    if t.unicode_len() == 0 {
        return Ok(Vec::new());
    }
    match json_object_pairs(s) {
        Ok(entries) => {
            let ghost expected = header_pairs(s@);
            let mut out: Vec<(String, String)> = Vec::new();
            let mut i: usize = 0;
            proof {
                assert(entries.deep_view().len() == entries@.len());
            }
            while i < entries.len()
                invariant
                    i <= entries@.len(),
                    entries.deep_view() == json_object_view(s@)->Ok_0,
                    entries.deep_view().len() == entries@.len(),
                    expected == header_pairs(s@),
                    expected.len() == entries@.len(),
                    out@.len() == i,
                    forall|j: int|
                        0 <= j < i ==> (#[trigger] out@[j]).0@ == expected[j].0 && out@[j].1@
                            == expected[j].1,
                decreases entries@.len() - i,
            {
                let entry: &(String, Option<String>, String) = &entries[i];
                proof {
                    assert(entries.deep_view()[i as int] == entries@[i as int].deep_view());
                    assert(expected[i as int] == header_value(entries.deep_view()[i as int]));
                }
                match &entry.1 {
                    Some(l) => out.push((entry.0.clone(), l.clone())),
                    None => out.push((entry.0.clone(), entry.2.clone())),
                }
                i = i + 1;
            }
            Ok(out)
        },
        Err(true) => Err(
            String::from_str(
                "\u{30d8}\u{30c3}\u{30c0}\u{30fc}\u{306f} JSON \u{30aa}\u{30d6}\u{30b8}\u{30a7}\u{30af}\u{30c8}\u{3067}\u{3042}\u{308b}\u{5fc5}\u{8981}\u{304c}\u{3042}\u{308a}\u{307e}\u{3059}",
            ),
        ),
        Err(false) => Err(
            String::from_str(
                "\u{30d8}\u{30c3}\u{30c0}\u{30fc} JSON \u{306e}\u{89e3}\u{6790}\u{306b}\u{5931}\u{6557}\u{3057}\u{307e}\u{3057}\u{305f}",
            ),
        ),
    }
}

/// Parses the request body as JSON and returns its compact rendering, which
/// is what goes on the wire.
pub fn parse_payload_json(s: &str) -> (r: Result<String, String>)
    ensures
        r is Ok <==> compact_json_of(s@) is Some,
        r matches Ok(p) ==> compact_json_of(s@) == Some(p@),
        r matches Err(m) ==> m@ == payload_syntax_notice(),
{
    match compact_json(s) {
        Some(p) => Ok(p),
        None => Err(
            String::from_str(
                "\u{30da}\u{30a4}\u{30ed}\u{30fc}\u{30c9} JSON \u{306e}\u{89e3}\u{6790}\u{306b}\u{5931}\u{6557}\u{3057}\u{307e}\u{3057}\u{305f}",
            ),
        ),
    }
}

/// The cooldown denial message carrying the seconds left.
pub open spec fn cooldown_notice(retry_after: u64) -> Seq<char> {
    "\u{30af}\u{30fc}\u{30eb}\u{30c0}\u{30a6}\u{30f3}\u{4e2d}\u{3067}\u{3059}\u{3002}"@
        + dec_str(retry_after as int)
        + "\u{79d2}\u{5f8c}\u{306b}\u{518d}\u{8a66}\u{884c}\u{3057}\u{3066}\u{304f}\u{3060}\u{3055}\u{3044}"@
}

/// Builds the cooldown denial message.
pub fn cooldown_message(retry_after: u64) -> (r: String)
    ensures
        r@ == cooldown_notice(retry_after),
{
    let mut s: String = String::from_str(
        "\u{30af}\u{30fc}\u{30eb}\u{30c0}\u{30a6}\u{30f3}\u{4e2d}\u{3067}\u{3059}\u{3002}",
    );
    let num: String = u64_to_dec(retry_after);
    s.append(num.as_str());
    s.append(
        "\u{79d2}\u{5f8c}\u{306b}\u{518d}\u{8a66}\u{884c}\u{3057}\u{3066}\u{304f}\u{3060}\u{3055}\u{3044}",
    );
    proof {
        assert(s@ =~= cooldown_notice(retry_after));
    }
    s
}

/// What the pipeline decides before any network work.
pub enum Preflight {
    /// The actor is inside the cooldown window; the message says for how long.
    Denied { message: String },
    /// An input was rejected before any network call; the message says why.
    Invalid { message: String },
    /// The call may go out with these header pairs and, for a POST, this
    /// compact JSON body.
    Ready { headers: Vec<(String, String)>, payload: Option<String> },
}

/// The pre-network gate of the fetch pipeline, in its fixed order: the
/// cooldown is checked (and the slot consumed) first, then the URL, then
/// the POST body, then the headers.  Only a `Ready` result may be followed
/// by a network call.
pub fn fetch_preflight(
    limiter: &mut RateLimiter,
    actor: u64,
    now: u64,
    url: &str,
    payload: Option<&str>,
    headers_raw: Option<&str>,
) -> (r: Preflight)
    ensures
        final(limiter).record() == admit_record(
            old(limiter).cooldown(),
            old(limiter).record(),
            actor,
            now,
        ),
        final(limiter).cooldown() == old(limiter).cooldown(),
        admit_decision(old(limiter).cooldown(), old(limiter).record(), actor, now) matches
            AdmitDecision::Denied { retry_after } ==> (r matches Preflight::Denied { message }
            && message@ == cooldown_notice(retry_after)),
        admit_decision(old(limiter).cooldown(), old(limiter).record(), actor, now) is Admitted
            && !url_ok(url@) ==> (r matches Preflight::Invalid { message } && message@
            == url_error_notice()),
        admit_decision(old(limiter).cooldown(), old(limiter).record(), actor, now) is Admitted
            && url_ok(url@) && (payload matches Some(p) && compact_json_of(p@) is None) ==> (r
            matches Preflight::Invalid { message } && message@ == payload_syntax_notice()),
        admit_decision(old(limiter).cooldown(), old(limiter).record(), actor, now) is Admitted
            && url_ok(url@) && (payload matches Some(p) ==> compact_json_of(p@) is Some)
            && (headers_raw matches Some(h) && !headers_ok(h@)) ==> (r matches Preflight::Invalid {
            message,
        } && (json_object_view(headers_raw->0@) matches Err(e) && (e ==> message@
            == header_object_notice()) && (!e ==> message@ == header_syntax_notice()))),
        admit_decision(old(limiter).cooldown(), old(limiter).record(), actor, now) is Admitted
            && url_ok(url@) && (payload matches Some(p) ==> compact_json_of(p@) is Some)
            && (headers_raw matches Some(h) ==> headers_ok(h@)) ==> (r matches Preflight::Ready {
            headers,
            payload: body,
        } && {
            let hs = if headers_raw is Some {
                headers_of(headers_raw->0@)
            } else {
                Seq::empty()
            };
            &&& headers@.len() == hs.len()
            &&& forall|i: int|
                0 <= i < headers@.len() ==> (#[trigger] headers@[i]).0@ == hs[i].0
                    && headers@[i].1@ == hs[i].1
            &&& body is Some <==> payload is Some
            &&& body matches Some(b) ==> compact_json_of(payload->0@) == Some(b@)
        }),
{
    let decision: AdmitDecision = limiter.admit_call(actor, now);
    if let AdmitDecision::Denied { retry_after } = decision {
        return Preflight::Denied { message: cooldown_message(retry_after) };
    }
    if let Err(m) = validate_url(url) {
        return Preflight::Invalid { message: m };
    }
    let body: Option<String> = match payload {
        Some(p) => match parse_payload_json(p) {
            Ok(b) => Some(b),
            Err(m) => {
                return Preflight::Invalid { message: m };
            },
        },
        None => None,
    };
    let headers: Vec<(String, String)> = match headers_raw {
        Some(h) => match parse_headers_json(h) {
            Ok(v) => v,
            Err(m) => {
                return Preflight::Invalid { message: m };
            },
        },
        None => Vec::new(),
    };
    Preflight::Ready { headers, payload: body }
}

/// Classifies a fetched response under the pipeline's fixed gates.
pub fn classify_response(bytes: Vec<u8>, content_type: &str) -> (r: DeliveryPayload)
    ensures
        r@ == classify_shape(bytes@, content_type@, MAX_MESSAGE_SIZE as nat, MAX_FILE_SIZE as nat),
{
    classify(bytes, content_type, MAX_MESSAGE_SIZE, MAX_FILE_SIZE)
}

} // verus!

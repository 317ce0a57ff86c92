//! The few calls into outside crates that the pipeline's logic needs, each
//! behind a function whose contract names exactly what the call computes.
//!
//! Every result here is a function of the arguments alone: text decoding,
//! case folding, JSON parsing and rendering, URL parsing, and the display
//! width of a character.  The uninterpreted names below stand for those
//! results; nothing else is assumed of them.

use unicode_width::UnicodeWidthChar;
use vstd::prelude::*;

verus! {

/// The character sequence that the bytes `b` decode to as UTF-8, if valid.
pub uninterp spec fn decoded_utf8(b: Seq<u8>) -> Option<Seq<char>>;

/// Lowercase folding of `s`, as `str::to_lowercase` computes it.
pub uninterp spec fn lower_of(s: Seq<char>) -> Seq<char>;

/// The pretty-printed rendering of the JSON value the bytes `b` hold,
/// if they parse as JSON and the rendering succeeds.
pub uninterp spec fn pretty_json_of(b: Seq<u8>) -> Option<Seq<char>>;

/// The compact rendering of the JSON value the text `s` holds, if it parses.
pub uninterp spec fn compact_json_of(s: Seq<char>) -> Option<Seq<char>>;

/// The scheme of `s` read as an absolute URL, if `s` parses as one.
pub uninterp spec fn url_scheme_of(s: Seq<char>) -> Option<Seq<char>>;

/// The entries of `s` read as a JSON object, in the deterministic order the
/// parser keeps them.  Each entry carries the key, the value's literal text
/// when the value is a JSON string, and the value's JSON serialization.
/// `Err(false)` stands for text that is not JSON at all, `Err(true)` for a
/// JSON value that is not an object.
pub uninterp spec fn json_object_view(s: Seq<char>) -> Result<
    Seq<(Seq<char>, Option<Seq<char>>, Seq<char>)>,
    bool,
>;

/// The display width in columns of `c`, counting a control character as 0.
pub uninterp spec fn display_width(c: char) -> nat;

/// Relies on `String::from_utf8`: returns the string made of exactly the
/// given bytes when they are valid UTF-8, and fails otherwise.
#[verifier::external_body]
pub fn utf8_decode(b: &[u8]) -> (r: Option<String>)
    ensures
        r is Some <==> decoded_utf8(b@) is Some,
        r matches Some(s) ==> decoded_utf8(b@) == Some(s@) && vstd::utf8::encode_utf8(s@) == b@,
{
    match String::from_utf8(b.to_vec()) {
        Ok(s) => Some(s),
        Err(_) => None,
    }
}

/// Relies on `str::to_lowercase`: the result depends on the characters
/// alone, and an empty string stays empty.
#[verifier::external_body]
pub fn lowercase(s: &str) -> (r: String)
    ensures
        r@ == lower_of(s@),
        s@.len() == 0 ==> r@.len() == 0,
{
    s.to_lowercase()
}

/// Relies on `serde_json::from_slice` and `serde_json::to_string_pretty`:
/// parses the bytes as JSON and renders the value with the standard
/// two-space indentation; both depend on the bytes alone.
#[verifier::external_body]
pub fn pretty_json(b: &[u8]) -> (r: Option<String>)
    ensures
        r is Some <==> pretty_json_of(b@) is Some,
        r matches Some(s) ==> pretty_json_of(b@) == Some(s@),
{
    match serde_json::from_slice::<serde_json::Value>(b) {
        Ok(v) => match serde_json::to_string_pretty(&v) {
            Ok(s) => Some(s),
            Err(_) => None,
        },
        Err(_) => None,
    }
}

/// Relies on `serde_json::from_str` and `serde_json::Value::to_string`:
/// parses the text as JSON and renders the value compactly; both depend on
/// the text alone.
#[verifier::external_body]
pub fn compact_json(s: &str) -> (r: Option<String>)
    ensures
        r is Some <==> compact_json_of(s@) is Some,
        r matches Some(t) ==> compact_json_of(s@) == Some(t@),
{
    match serde_json::from_str::<serde_json::Value>(s) {
        Ok(v) => Some(v.to_string()),
        Err(_) => None,
    }
}

/// Relies on `url::Url::parse` and `url::Url::scheme`: parsing depends on
/// the text alone, and `scheme` returns the parsed URL's scheme.
#[verifier::external_body]
pub fn url_scheme(s: &str) -> (r: Option<String>)
    ensures
        r is Some <==> url_scheme_of(s@) is Some,
        r matches Some(t) ==> url_scheme_of(s@) == Some(t@),
{
    match url::Url::parse(s) {
        Ok(u) => Some(u.scheme().to_string()),
        Err(_) => None,
    }
}

/// Relies on `serde_json::from_str`, `serde_json::Value::as_str` and
/// `serde_json::Value::to_string`: reads the text as a JSON object and hands
/// each entry out as plain strings.  With the `preserve_order` feature off,
/// the object's entries come in the parser's deterministic (sorted) order,
/// so the result depends on the text alone.
#[verifier::external_body]
pub fn json_object_pairs(s: &str) -> (r: Result<Vec<(String, Option<String>, String)>, bool>)
    ensures
        r is Ok <==> json_object_view(s@) is Ok,
        r matches Ok(v) ==> json_object_view(s@) matches Ok(m) && m == v.deep_view(),
        r matches Err(e) ==> json_object_view(s@) matches Err(e2) && e2 == e,
{
    match serde_json::from_str::<serde_json::Value>(s) {
        Ok(serde_json::Value::Object(m)) => {
            let mut out: Vec<(String, Option<String>, String)> = Vec::new();
            for (k, v) in m {
                let lit = v.as_str().map(|t| t.to_string());
                out.push((k, lit, v.to_string()));
            }
            Ok(out)
        }
        Ok(_) => Err(true),
        Err(_) => Err(false),
    }
}

/// Relies on `unicode_width::UnicodeWidthChar::width`: the width of a
/// character in columns is 0, 1, 2 or 3, with control characters (reported
/// as `None`) counted as 0 here.
#[verifier::external_body]
pub fn char_width(c: char) -> (r: usize)
    ensures
        r as nat == display_width(c),
        r <= 3,
{
    match UnicodeWidthChar::width(c) {
        Some(w) => w,
        None => 0,
    }
}

} // verus!

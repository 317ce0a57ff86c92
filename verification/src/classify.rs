//! Classification of response bytes: inline text, code block, attachment or
//! rejection, decided from the declared content type and two size gates.

use crate::outside::{decoded_utf8, pretty_json_of, pretty_json, utf8_decode};
use crate::strutil::{starts_with, str_starts_with, trim_spec, trim_str};
use vstd::prelude::*;
use vstd::string::StrSliceExecFns;
use vstd::string::StringExecFns;
use vstd::string::StringSliceAdditionalSpecFns;
use vstd::utf8::encode_utf8;

verus! {

/// The classified payload, ready for the delivery sink.
pub enum DeliveryPayload {
    /// Plain chat text, sent as is.
    InlineText(String),
    /// Text wrapped in a fenced code block with the given language tag.
    CodeBlock { lang_tag: String, text: String },
    /// Raw bytes sent as a file with the given name.
    Attachment { bytes: Vec<u8>, filename: String },
    /// Nothing deliverable; the string says why.
    Rejected(String),
}

/// The mathematical shape of a payload: the same variants over sequences.
pub enum PayloadShape {
    InlineText(Seq<char>),
    CodeBlock { lang_tag: Seq<char>, text: Seq<char> },
    Attachment { bytes: Seq<u8>, filename: Seq<char> },
    Rejected(Seq<char>),
}

impl View for DeliveryPayload {
    type V = PayloadShape;

    open spec fn view(&self) -> PayloadShape {
        match self {
            DeliveryPayload::InlineText(s) => PayloadShape::InlineText(s@),
            DeliveryPayload::CodeBlock { lang_tag, text } => PayloadShape::CodeBlock {
                lang_tag: lang_tag@,
                text: text@,
            },
            DeliveryPayload::Attachment { bytes, filename } => PayloadShape::Attachment {
                bytes: bytes@,
                filename: filename@,
            },
            DeliveryPayload::Rejected(s) => PayloadShape::Rejected(s@),
        }
    }
}

/// Whether the content type is an HTML family type.
pub open spec fn is_html_ct(ct: Seq<char>) -> bool {
    starts_with(ct, "text/html"@)
}

/// Whether the content type is a JSON family type.
pub open spec fn is_json_ct(ct: Seq<char>) -> bool {
    starts_with(ct, "application/json"@)
}

/// Whether the content type belongs to the textual or JSON families.
pub open spec fn is_textual_ct(ct: Seq<char>) -> bool {
    starts_with(ct, "text/"@) || is_json_ct(ct)
}

/// The displayable text of the bytes: HTML is never displayed inline, other
/// textual and JSON families display when the bytes decode as UTF-8.
pub open spec fn display_text(b: Seq<u8>, ct: Seq<char>) -> Option<Seq<char>> {
    if is_html_ct(ct) {
        None
    } else if is_textual_ct(ct) {
        decoded_utf8(b)
    } else {
        None
    }
}

/// The text a code block would carry: the pretty-printed JSON when the
/// content type is a JSON family and the bytes render that way, and the
/// plainly decoded text otherwise.
pub open spec fn rendered_text(b: Seq<u8>, ct: Seq<char>) -> Seq<char> {
    if is_json_ct(ct) && pretty_json_of(b) is Some {
        pretty_json_of(b)->0
    } else {
        decoded_utf8(b)->0
    }
}

/// The language tag of the code block for this content type.
pub open spec fn block_tag(ct: Seq<char>) -> Seq<char> {
    if is_json_ct(ct) {
        "json"@
    } else {
        ""@
    }
}

/// The notice sent when the bytes are too large even to attach.
pub open spec fn oversize_notice() -> Seq<char> {
    "\u{30ec}\u{30b9}\u{30dd}\u{30f3}\u{30b9}\u{304c} 10MB \u{3092}\u{8d85}\u{3048}\u{305f}\u{305f}\u{3081}\u{6dfb}\u{4ed8}\u{3067}\u{304d}\u{307e}\u{305b}\u{3093}\u{3067}\u{3057}\u{305f}"@
}

/// Bytes become an attachment under the file size gate, else a rejection.
pub open spec fn attach_or_reject(b: Seq<u8>, filename: Seq<char>, file_limit: nat) -> PayloadShape {
    if b.len() <= file_limit {
        PayloadShape::Attachment { bytes: b, filename }
    } else {
        PayloadShape::Rejected(oversize_notice())
    }
}

/// What `classify` returns, decided in this order: HTML attaches or is
/// rejected, never inlined; displayable text becomes a code block when its
/// rendering passes the textual gate, else attaches under the file gate;
/// everything else attaches under the file gate.  The textual gate reads
/// the rendered text's length in characters.
pub open spec fn classify_shape(
    b: Seq<u8>,
    ct: Seq<char>,
    textual_limit: nat,
    file_limit: nat,
) -> PayloadShape {
    if is_html_ct(ct) {
        attach_or_reject(b, "response.html"@, file_limit)
    } else if display_text(b, ct) is Some {
        let s = rendered_text(b, ct);
        if s.len() <= textual_limit {
            PayloadShape::CodeBlock { lang_tag: block_tag(ct), text: s }
        } else {
            attach_or_reject(b, "response.txt"@, file_limit)
        }
    } else {
        attach_or_reject(b, "response.bin"@, file_limit)
    }
}

/// Whether the content type is HTML.
pub fn is_html(content_type: &str) -> (r: bool)
    ensures
        r == is_html_ct(content_type@),
{
    str_starts_with(content_type, "text/html")
}

/// The text to display for these bytes, when there is one.
pub fn to_display_text(bytes: &[u8], content_type: &str) -> (r: Option<String>)
    ensures
        r is Some <==> display_text(bytes@, content_type@) is Some,
        r matches Some(s) ==> display_text(bytes@, content_type@) == Some(s@) && encode_utf8(s@)
            == bytes@,
{
    if is_html(content_type) {
        return None;
    }
    if str_starts_with(content_type, "text/") || str_starts_with(content_type, "application/json") {
        utf8_decode(bytes)
    } else {
        None
    }
}

fn attach_or_reject_exec(bytes: Vec<u8>, filename: &str, file_limit: usize) -> (r: DeliveryPayload)
    ensures
        r@ == attach_or_reject(bytes@, filename@, file_limit as nat),
{
    if bytes.len() <= file_limit {
        DeliveryPayload::Attachment { bytes, filename: String::from_str(filename) }
    } else {
        DeliveryPayload::Rejected(
            String::from_str(
                "\u{30ec}\u{30b9}\u{30dd}\u{30f3}\u{30b9}\u{304c} 10MB \u{3092}\u{8d85}\u{3048}\u{305f}\u{305f}\u{3081}\u{6dfb}\u{4ed8}\u{3067}\u{304d}\u{307e}\u{305b}\u{3093}\u{3067}\u{3057}\u{305f}",
            ),
        )
    }
}

/// Classifies response bytes under the two size gates.
pub fn classify(
    bytes: Vec<u8>,
    content_type: &str,
    textual_limit: usize,
    file_limit: usize,
) -> (r: DeliveryPayload)
    ensures
        r@ == classify_shape(bytes@, content_type@, textual_limit as nat, file_limit as nat),
{
    if is_html(content_type) {
        return attach_or_reject_exec(bytes, "response.html", file_limit);
    }
    match to_display_text(bytes.as_slice(), content_type) {
        Some(decoded) => {
            let is_json: bool = str_starts_with(content_type, "application/json");
            let rendered: String = if is_json {
                match pretty_json(bytes.as_slice()) {
                    Some(p) => p,
                    None => decoded,
                }
            } else {
                decoded
            };
            proof {
                assert(rendered@ == rendered_text(bytes@, content_type@));
            }
            if rendered.as_str().unicode_len() <= textual_limit {
                let tag: &str = if is_json {
                    "json"
                } else {
                    ""
                };
                DeliveryPayload::CodeBlock {
                    lang_tag: String::from_str(tag),
                    text: rendered,
                }
            } else {
                attach_or_reject_exec(bytes, "response.txt", file_limit)
            }
        }
        None => attach_or_reject_exec(bytes, "response.bin", file_limit),
    }
}

/// The message sent in place of an empty tool response.
pub open spec fn empty_response_notice() -> Seq<char> {
    "(\u{7a7a}\u{306e}\u{5fdc}\u{7b54})"@
}

/// Where tool output bytes go: inline text when they decode and their
/// trimmed form fits the textual gate (an empty trimmed form becomes a
/// placeholder notice), else a file, named for whether the bytes are text.
pub open spec fn message_or_file(b: Seq<u8>, textual_limit: nat) -> Result<
    Seq<char>,
    (Seq<u8>, Seq<char>),
> {
    match decoded_utf8(b) {
        Some(s) => {
            let t = trim_spec(s);
            if t.len() == 0 {
                Ok(empty_response_notice())
            } else if t.len() <= textual_limit {
                Ok(t)
            } else {
                Err((b, "gpt.txt"@))
            }
        },
        None => Err((b, "gpt.bin"@)),
    }
}

/// Decides whether tool output is sent as a chat message or as a file.
pub fn to_message_or_file_bytes(bytes: Vec<u8>, textual_limit: usize) -> (r: Result<
    String,
    (Vec<u8>, String),
>)
    ensures
        r is Ok <==> message_or_file(bytes@, textual_limit as nat) is Ok,
        r matches Ok(s) ==> message_or_file(bytes@, textual_limit as nat) == Ok::<Seq<char>, (Seq<u8>, Seq<char>)>(s@),
        r matches Err(p) ==> message_or_file(bytes@, textual_limit as nat) matches Err(q) && q.0
            == p.0@ && q.1 == p.1@,
{
    match utf8_decode(bytes.as_slice()) {
        Some(s) => {
            let t: &str = trim_str(s.as_str());
            if t.unicode_len() == 0 {
                Ok(String::from_str("(\u{7a7a}\u{306e}\u{5fdc}\u{7b54})"))
            } else if t.unicode_len() <= textual_limit {
                Ok(String::from_str(t))
            } else {
                Err((bytes, String::from_str("gpt.txt")))
            }
        },
        None => Err((bytes, String::from_str("gpt.bin"))),
    }
}

/// The fenced code block around `body` with the language tag `tag`.
pub fn code_block_text(tag: &str, body: &str) -> (r: String)
    ensures
        r@ == "```"@ + tag@ + "\n"@ + body@ + "\n```"@,
{
    let mut s: String = String::from_str("```");
    s.append(tag);
    s.append("\n");
    s.append(body);
    s.append("\n```");
    proof {
        assert(s@ =~= "```"@ + tag@ + "\n"@ + body@ + "\n```"@);
    }
    s
}

/// HTML is never delivered inline: whatever the gates, an HTML content type
/// yields an attachment or a rejection, and any single byte of HTML under
/// the file gate yields an attachment.
pub proof fn lemma_html_never_inlines(b: Seq<u8>, ct: Seq<char>, textual_limit: nat, file_limit: nat)
    requires
        is_html_ct(ct),
    ensures
        classify_shape(b, ct, textual_limit, file_limit) is Attachment || classify_shape(
            b,
            ct,
            textual_limit,
            file_limit,
        ) is Rejected,
        b.len() == 1 && file_limit >= 1 ==> classify_shape(
            b,
            ct,
            textual_limit,
            file_limit,
        ) is Attachment,
{
}

} // verus!

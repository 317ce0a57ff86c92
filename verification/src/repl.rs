//! The quick-REPL command surface: parsing a chat message into a language
//! tag and a code snippet, and building the fixed-version execution request
//! the command submits.

use crate::strutil::{
    ends_with, first_index_of, split_once_char, starts_with, strip_prefix_str, strip_suffix_str,
    trim_spec, trim_start_spec, trim_start_str, trim_str,
};
use vstd::prelude::*;
use vstd::string::StringExecFns;

verus! {

/// The message body after the command prefix and name: what follows
/// `!rrepl`, with leading whitespace dropped; an empty sequence when the
/// message does not carry the command.
pub open spec fn repl_rest(s: Seq<char>) -> Seq<char> {
    if starts_with(s, "!"@) {
        let t1 = trim_start_spec(s.subrange("!"@.len() as int, s.len() as int));
        if starts_with(t1, "rrepl"@) {
            trim_start_spec(t1.subrange("rrepl"@.len() as int, t1.len() as int))
        } else {
            Seq::<char>::empty()
        }
    } else {
        Seq::<char>::empty()
    }
}

/// The language tag and snippet read from the message: a fenced block
/// yields its first line as the tag and the remainder as the snippet, each
/// trimmed; anything else is taken as a bare Rust snippet.
pub open spec fn code_format_spec(s: Seq<char>) -> (Seq<char>, Seq<char>) {
    let t = repl_rest(s);
    if starts_with(t, "```"@) {
        let mid = t.subrange("```"@.len() as int, t.len() as int);
        if ends_with(mid, "```"@) {
            let inner = trim_spec(mid.subrange(0, mid.len() - "```"@.len()));
            let i = first_index_of(inner, '\n');
            let lang = trim_spec(inner.subrange(0, i));
            let code = if i < inner.len() {
                trim_spec(inner.subrange(i + 1, inner.len() as int))
            } else {
                Seq::<char>::empty()
            };
            (lang, code)
        } else {
            ("rust"@, t)
        }
    } else {
        ("rust"@, t)
    }
}

/// Splits a `!rrepl` message into its language tag and code snippet.
pub fn code_format(s: &str) -> (r: (String, String))
    ensures
        r.0@ == code_format_spec(s@).0,
        r.1@ == code_format_spec(s@).1,
{
    let rest: &str = match strip_prefix_str(s, "!") {
        Some(t) => {
            let t1: &str = trim_start_str(t);
            match strip_prefix_str(t1, "rrepl") {
                Some(t2) => trim_start_str(t2),
                None => "",
            }
        },
        None => "",
    };
    proof {
        reveal_strlit("");
        assert(rest@ == repl_rest(s@));
    }
    if let Some(mid) = strip_prefix_str(rest, "```") {
        if let Some(v) = strip_suffix_str(mid, "```") {
            let inner: &str = trim_str(v);
            let (first, second): (&str, Option<&str>) = split_once_char(inner, '\n');
            let lang: &str = trim_str(first);
            let code: &str = match second {
                Some(c) => trim_str(c),
                None => "",
            };
            proof {
                reveal_strlit("");
            }
            return (String::from_str(lang), String::from_str(code));
        }
    }
    (String::from_str("rust"), String::from_str(rest))
}

/// One file of the quick-REPL execution request.
pub struct FileContent {
    pub name: String,
    pub content: String,
}

impl FileContent {
    /// The synthetic `main.rs` holding the snippet inside a `main`.
    pub fn new(code: &str) -> (r: Self)
        ensures
            r.name@ == "main.rs"@,
            r.content@ == "fn main() {"@ + code@ + "}"@,
    {
        let mut content: String = String::from_str("fn main() {");
        content.append(code);
        content.append("}");
        proof {
            assert(content@ =~= "fn main() {"@ + code@ + "}"@);
        }
        FileContent { name: String::from_str("main.rs"), content }
    }
}

/// The quick-REPL execution request: one file, a fixed toolchain version.
pub struct ReqJson {
    pub language: String,
    pub version: String,
    pub files: Vec<FileContent>,
}

impl ReqJson {
    /// A request for `code` under `lang` at the command's pinned version.
    pub fn new(lang: &str, code: &str) -> (r: Self)
        ensures
            r.language@ == lang@,
            r.version@ == "1.68.2"@,
            r.files@.len() == 1,
            r.files@[0].name@ == "main.rs"@,
            r.files@[0].content@ == "fn main() {"@ + code@ + "}"@,
    {
        let mut files: Vec<FileContent> = Vec::new();
        files.push(FileContent::new(code));
        ReqJson {
            language: String::from_str(lang),
            version: String::from_str("1.68.2"),
            files,
        }
    }
}

} // verus!

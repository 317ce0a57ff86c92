//! The remote polyglot execution backend's decision logic: resolving a
//! requested language against the fetched registry, wrapping a snippet in
//! the language's entry-point form, building the request body, and
//! rendering the service's reply.

use crate::outside::{lower_of, lowercase};
use crate::strutil::str_eq;
use vstd::prelude::*;
use vstd::string::StringExecFns;

verus! {

/// One entry of the remote service's language registry.
pub struct Lang {
    pub language: String,
    pub version: String,
}

/// The registry of languages the remote service supports, in its order.
pub struct Languages(pub Vec<Lang>);

/// Whether the registry sequence holds an entry named exactly `q`.
pub open spec fn has_lang(s: Seq<Lang>, q: Seq<char>) -> bool {
    exists|i: int| 0 <= i < s.len() && (#[trigger] s[i]).language@ == q
}

/// The index of the first registry entry named exactly `q`.
pub open spec fn find_lang_idx(s: Seq<Lang>, q: Seq<char>) -> int
    decreases s.len(),
{
    if s.len() == 0 {
        0
    } else if s[0].language@ == q {
        0
    } else {
        1 + find_lang_idx(s.drop_first(), q)
    }
}

pub proof fn lemma_find_lang_idx(s: Seq<Lang>, q: Seq<char>)
    ensures
        0 <= find_lang_idx(s, q) <= s.len(),
        forall|j: int| 0 <= j < find_lang_idx(s, q) ==> (#[trigger] s[j]).language@ != q,
        find_lang_idx(s, q) < s.len() ==> s[find_lang_idx(s, q)].language@ == q,
        has_lang(s, q) <==> find_lang_idx(s, q) < s.len(),
    decreases s.len(),
{
    if s.len() > 0 && s[0].language@ != q {
        lemma_find_lang_idx(s.drop_first(), q);
        assert forall|j: int| 0 <= j < find_lang_idx(s, q) implies (#[trigger] s[j]).language@
            != q by {
            if j > 0 {
                assert(s.drop_first()[j - 1].language@ != q);
            }
        }
        if find_lang_idx(s, q) < s.len() {
            assert(s.drop_first()[find_lang_idx(s, q) - 1].language@ == q);
        }
        if has_lang(s, q) {
            let i = choose|i: int| 0 <= i < s.len() && (#[trigger] s[i]).language@ == q;
            assert(s.drop_first()[i - 1].language@ == q);
            assert(has_lang(s.drop_first(), q));
        }
        if has_lang(s.drop_first(), q) {
            let i = choose|i: int|
                0 <= i < s.drop_first().len() && (#[trigger] s.drop_first()[i]).language@ == q;
            assert(s[i + 1].language@ == q);
        }
    }
}

impl Languages {
    /// Looks a language up by exact, case-sensitive id; the first match in
    /// registry order is returned.
    pub fn get(&self, lang: &str) -> (r: Option<&Lang>)
        ensures
            r is Some <==> has_lang(self.0@, lang@),
            r matches Some(l) ==> *l == self.0@[find_lang_idx(self.0@, lang@)]
                && l.language@ == lang@,
    {
        proof {
            lemma_find_lang_idx(self.0@, lang@);
        }
        let n: usize = self.0.len();
        let mut i: usize = 0;
        while i < n
            invariant
                n == self.0@.len(),
                i <= n,
                forall|j: int| 0 <= j < i ==> (#[trigger] self.0@[j]).language@ != lang@,
                find_lang_idx(self.0@, lang@) >= i,
            decreases n - i,
        {
            proof {
                lemma_find_lang_idx(self.0@, lang@);
            }
            if str_eq(self.0[i].language.as_str(), lang) {
                proof {
                    assert(find_lang_idx(self.0@, lang@) == i);
                }
                return Some(&self.0[i]);
            }
            i = i + 1;
        }
        proof {
            lemma_find_lang_idx(self.0@, lang@);
        }
        None
    }
}

/// Whether a language needs an explicit entry point wrapped around the
/// snippet, decided on the lowercased id.
pub open spec fn needs_main(name: Seq<char>) -> bool {
    let l = lower_of(name);
    l == "rust"@ || l == "c++"@ || l == "c"@ || l == "go"@ || l == "java"@ || l == "zig"@
}

/// Whether `lang` needs a synthetic `main` around the snippet.
pub fn reqire_main(lang: &Lang) -> (r: bool)
    ensures
        r == needs_main(lang.language@),
{
    let lower: String = lowercase(lang.language.as_str());
    let l: &str = lower.as_str();
    str_eq(l, "rust") || str_eq(l, "c++") || str_eq(l, "c") || str_eq(l, "go") || str_eq(l, "java")
        || str_eq(l, "zig")
}

/// The source file extension for the lowercased language id, with `rs` as
/// the fallback for ids outside the table.
pub open spec fn extension_for(l: Seq<char>) -> Seq<char> {
    if l == "rust"@ {
        "rs"@
    } else if l == "python"@ {
        "py"@
    } else if l == "c++"@ {
        "cpp"@
    } else if l == "c"@ {
        "c"@
    } else if l == "java"@ {
        "java"@
    } else if l == "javascript"@ {
        "js"@
    } else if l == "typescript"@ {
        "ts"@
    } else if l == "go"@ {
        "go"@
    } else if l == "ruby"@ {
        "rb"@
    } else if l == "html"@ {
        "html"@
    } else if l == "css"@ {
        "css"@
    } else if l == "bash"@ {
        "bash"@
    } else if l == "haskell"@ {
        "hs"@
    } else if l == "lisp"@ {
        "lisp"@
    } else if l == "ocaml"@ {
        "ml"@
    } else if l == "prolog"@ {
        "pl"@
    } else if l == "zig"@ {
        "zig"@
    } else if l == "swift"@ {
        "swift"@
    } else if l == "scala"@ {
        "sc"@
    } else if l == "nim"@ {
        "nim"@
    } else {
        "rs"@
    }
}

/// The extension of the synthetic source file for `lang`.
pub fn lang_to_extension(lang: &Lang) -> (r: String)
    ensures
        r@ == extension_for(lower_of(lang.language@)),
{
    let lower: String = lowercase(lang.language.as_str());
    let l: &str = lower.as_str();
    let e: &str = if str_eq(l, "rust") {
        "rs"
    } else if str_eq(l, "python") {
        "py"
    } else if str_eq(l, "c++") {
        "cpp"
    } else if str_eq(l, "c") {
        "c"
    } else if str_eq(l, "java") {
        "java"
    } else if str_eq(l, "javascript") {
        "js"
    } else if str_eq(l, "typescript") {
        "ts"
    } else if str_eq(l, "go") {
        "go"
    } else if str_eq(l, "ruby") {
        "rb"
    } else if str_eq(l, "html") {
        "html"
    } else if str_eq(l, "css") {
        "css"
    } else if str_eq(l, "bash") {
        "bash"
    } else if str_eq(l, "haskell") {
        "hs"
    } else if str_eq(l, "lisp") {
        "lisp"
    } else if str_eq(l, "ocaml") {
        "ml"
    } else if str_eq(l, "prolog") {
        "pl"
    } else if str_eq(l, "zig") {
        "zig"
    } else if str_eq(l, "swift") {
        "swift"
    } else if str_eq(l, "scala") {
        "sc"
    } else if str_eq(l, "nim") {
        "nim"
    } else {
        "rs"
    };
    String::from_str(e)
}

/// The snippet wrapped in the language's entry-point form.  Languages
/// outside the allow-list pass through unchanged; the wrap shape is chosen
/// on the raw id, with the `zig` form as the remaining case.
pub open spec fn wrapped_code(code: Seq<char>, name: Seq<char>) -> Seq<char> {
    if !needs_main(name) {
        code
    } else if name == "rust"@ {
        "fn main() {"@ + code + "}"@
    } else if name == "c"@ || name == "c++"@ {
        "int main() {"@ + code + "}"@
    } else if name == "go"@ {
        "func main() {"@ + code + "}"@
    } else if name == "java"@ {
        "public class Main {public static void main(String[] args) {"@ + code + "}}"@
    } else {
        "pub fn main() void {"@ + code + "}"@
    }
}

fn wrap_with(prefix: &str, code: &str, suffix: &str) -> (r: String)
    ensures
        r@ == prefix@ + code@ + suffix@,
{
    let mut s: String = String::from_str(prefix);
    s.append(code);
    s.append(suffix);
    proof {
        assert(s@ =~= prefix@ + code@ + suffix@);
    }
    s
}

/// Makes the snippet runnable by adding the language's entry point where
/// one is needed.
pub fn code_generator(code: &str, lang: &Lang) -> (r: String)
    ensures
        r@ == wrapped_code(code@, lang.language@),
{
    if reqire_main(lang) {
        let name: &str = lang.language.as_str();
        if str_eq(name, "rust") {
            wrap_with("fn main() {", code, "}")
        } else if str_eq(name, "c") || str_eq(name, "c++") {
            wrap_with("int main() {", code, "}")
        } else if str_eq(name, "go") {
            wrap_with("func main() {", code, "}")
        } else if str_eq(name, "java") {
            wrap_with("public class Main {public static void main(String[] args) {", code, "}}")
        } else {
            wrap_with("pub fn main() void {", code, "}")
        }
    } else {
        String::from_str(code)
    }
}

/// One file of an execution request.
pub struct FileContent {
    pub name: String,
    pub content: String,
}

impl FileContent {
    /// The synthetic source file for `lang`: named by the extension table
    /// and holding the wrapped snippet.
    pub fn new(lang: &Lang, code: &str) -> (r: Self)
        ensures
            r.name@ == "main."@ + extension_for(lower_of(lang.language@)),
            r.content@ == wrapped_code(code@, lang.language@),
    {
        let ext: String = lang_to_extension(lang);
        let mut name: String = String::from_str("main.");
        name.append(ext.as_str());
        FileContent { name, content: code_generator(code, lang) }
    }
}

/// The body of an execution request to the remote service.
pub struct ReqJson {
    pub language: String,
    pub version: String,
    pub files: Vec<FileContent>,
}

impl ReqJson {
    /// A request running `code` under the registry entry `lang`.
    pub fn new(lang: &Lang, code: &str) -> (r: Self)
        ensures
            r.language@ == lang.language@,
            r.version@ == lang.version@,
            r.files@.len() == 1,
            r.files@[0].name@ == "main."@ + extension_for(lower_of(lang.language@)),
            r.files@[0].content@ == wrapped_code(code@, lang.language@),
    {
        let mut files: Vec<FileContent> = Vec::new();
        files.push(FileContent::new(lang, code));
        ReqJson { language: lang.language.clone(), version: lang.version.clone(), files }
    }
}

/// The message for a language the registry does not list.
pub open spec fn unsupported_language_notice() -> Seq<char> {
    "\u{975e}\u{5bfe}\u{5fdc}\u{306e}\u{8a00}\u{8a9e}\u{3067}\u{3059}\u{3002}"@
}

/// Resolves `requested` against the registry and builds the execution
/// request.  An id the registry lacks is a user-facing error, and no
/// request body exists for the execute endpoint in that case.
pub fn prepare_execution(langs: &Languages, requested: &str, code: &str) -> (r: Result<
    ReqJson,
    String,
>)
    ensures
        r is Ok <==> has_lang(langs.0@, requested@),
        r matches Ok(req) ==> {
            let l = langs.0@[find_lang_idx(langs.0@, requested@)];
            &&& req.language@ == requested@
            &&& req.language@ == l.language@
            &&& req.version@ == l.version@
            &&& req.files@.len() == 1
            &&& req.files@[0].name@ == "main."@ + extension_for(lower_of(l.language@))
            &&& req.files@[0].content@ == wrapped_code(code@, l.language@)
        },
        r matches Err(m) ==> m@ == unsupported_language_notice(),
{
    match langs.get(requested) {
        Some(l) => Ok(ReqJson::new(l, code)),
        None => Err(
            String::from_str(
                "\u{975e}\u{5bfe}\u{5fdc}\u{306e}\u{8a00}\u{8a9e}\u{3067}\u{3059}\u{3002}",
            ),
        ),
    }
}

/// What an execution backend reports for one run.  A nonzero exit status or
/// a nonempty standard error does not make a remote run a failure: the
/// service reports its outcome independently, and the combined output is
/// what the user sees.
pub struct ExecutionResult {
    pub stdout: String,
    pub stderr: String,
    pub exit_status: i32,
    pub combined_output: String,
}

impl ExecutionResult {
    /// The chat summary of this run under the service-reported language and
    /// version.
    pub fn summary(&self, language: &str, version: &str) -> (r: String)
        ensures
            r@ == response_summary(language@, version@, self.combined_output@),
    {
        render_response(language, version, self.combined_output.as_str())
    }
}

/// The summary the pipeline renders for a successful remote run: always the
/// service-reported language and version, never the requested ones.
pub open spec fn response_summary(
    language: Seq<char>,
    version: Seq<char>,
    combined_output: Seq<char>,
) -> Seq<char> {
    "lang: "@ + language + "\nversion: "@ + version + "\nresult:\n```bash\n"@ + combined_output
        + "```"@
}

/// Renders the service's reply as the chat summary.
pub fn render_response(language: &str, version: &str, combined_output: &str) -> (r: String)
    ensures
        r@ == response_summary(language@, version@, combined_output@),
{
    let mut s: String = String::from_str("lang: ");
    s.append(language);
    s.append("\nversion: ");
    s.append(version);
    s.append("\nresult:\n```bash\n");
    s.append(combined_output);
    s.append("```");
    proof {
        assert(s@ =~= response_summary(language@, version@, combined_output@));
    }
    s
}

} // verus!

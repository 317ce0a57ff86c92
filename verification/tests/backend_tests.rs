use botrun::bubble::{get_max_len, get_str_len, mul_str, s2huki, try_s2huki};
use botrun::remote::{
    code_generator, lang_to_extension, prepare_execution, render_response, reqire_main,
    ExecutionResult, Lang, Languages,
};
use botrun::repl::{code_format, ReqJson as ReplReqJson};
use botrun::sandbox::{conclude_run, ready_code, CodeRunner, Error, RunEvent, SrcCode};

fn lang(name: &str, version: &str) -> Lang {
    Lang { language: name.to_string(), version: version.to_string() }
}

fn small_registry() -> Languages {
    Languages(vec![lang("python", "3.12.0"), lang("rust", "1.68.2"), lang("go", "1.16.2")])
}

#[test]
fn language_resolution_miss() {
    let langs = small_registry();
    assert!(langs.get("brainfuck").is_none());
    let r = prepare_execution(&langs, "brainfuck", "++++");
    let msg = r.err().expect("an unlisted language must be refused");
    assert_eq!(msg, "\u{975e}\u{5bfe}\u{5fdc}\u{306e}\u{8a00}\u{8a9e}\u{3067}\u{3059}\u{3002}");
}

#[test]
fn language_resolution_is_exact_and_case_sensitive() {
    let langs = small_registry();
    let l = langs.get("rust").expect("rust is listed");
    assert_eq!(l.version, "1.68.2");
    assert!(langs.get("Rust").is_none());
    assert!(langs.get("rus").is_none());
}

#[test]
fn prepare_execution_builds_the_request() {
    let langs = small_registry();
    let req = prepare_execution(&langs, "rust", "println!(\"ok\");").unwrap();
    assert_eq!(req.language, "rust");
    assert_eq!(req.version, "1.68.2");
    assert_eq!(req.files.len(), 1);
    assert_eq!(req.files[0].name, "main.rs");
    assert_eq!(req.files[0].content, "fn main() {println!(\"ok\");}");
}

#[test]
fn entry_point_allow_list() {
    assert!(reqire_main(&lang("rust", "1")));
    assert!(reqire_main(&lang("RUST", "1")));
    assert!(reqire_main(&lang("c++", "1")));
    assert!(reqire_main(&lang("zig", "1")));
    assert!(!reqire_main(&lang("python", "1")));
    assert!(!reqire_main(&lang("ruby", "1")));
}

#[test]
fn extension_table_and_fallback() {
    assert_eq!(lang_to_extension(&lang("python", "1")), "py");
    assert_eq!(lang_to_extension(&lang("Python", "1")), "py");
    assert_eq!(lang_to_extension(&lang("typescript", "1")), "ts");
    assert_eq!(lang_to_extension(&lang("ocaml", "1")), "ml");
    assert_eq!(lang_to_extension(&lang("brainfuck", "1")), "rs");
}

#[test]
fn wrapping_shapes_per_language() {
    assert_eq!(code_generator("x();", &lang("rust", "1")), "fn main() {x();}");
    assert_eq!(code_generator("x();", &lang("c", "1")), "int main() {x();}");
    assert_eq!(code_generator("x();", &lang("go", "1")), "func main() {x();}");
    assert_eq!(
        code_generator("x();", &lang("java", "1")),
        "public class Main {public static void main(String[] args) {x();}}"
    );
    assert_eq!(code_generator("x();", &lang("zig", "1")), "pub fn main() void {x();}");
    assert_eq!(code_generator("x();", &lang("python", "1")), "x();");
}

#[test]
fn response_summary_shape() {
    let s = render_response("rust", "1.68.2", "Hello worold!\n");
    assert_eq!(s, "lang: rust\nversion: 1.68.2\nresult:\n```bash\nHello worold!\n```");
}

#[test]
fn summary_reports_the_service_outcome_not_the_exit_status() {
    let r = ExecutionResult {
        stdout: String::new(),
        stderr: "warning: unused".to_string(),
        exit_status: 1,
        combined_output: "out\n".to_string(),
    };
    assert_eq!(r.summary("rust", "1.68.2"), "lang: rust\nversion: 1.68.2\nresult:\n```bash\nout\n```");
}

#[test]
fn repl_request_is_pinned() {
    let req = ReplReqJson::new("rust", "println!(\"hi\");");
    assert_eq!(req.language, "rust");
    assert_eq!(req.version, "1.68.2");
    assert_eq!(req.files[0].name, "main.rs");
    assert_eq!(req.files[0].content, "fn main() {println!(\"hi\");}");
}

#[test]
fn code_format_reads_fences() {
    let (l, c) = code_format("!rrepl\n```rust\nprintln!(\"x\");\n```");
    assert_eq!(l, "rust");
    assert_eq!(c, "println!(\"x\");");

    // A tagless fence trims its inner text before splitting at the first
    // newline, so a one-line body lands in the language slot.
    let (l, c) = code_format("!rrepl\n```\nprintln!(\"x\");\n```");
    assert_eq!(l, "println!(\"x\");");
    assert_eq!(c, "");

    let (l, c) = code_format("!rrepl let a = 1;");
    assert_eq!(l, "rust");
    assert_eq!(c, "let a = 1;");

    let (l, c) = code_format("no prefix at all");
    assert_eq!(l, "rust");
    assert_eq!(c, "");
}

#[test]
fn workspace_plan_holds_exactly_the_generated_files() {
    let src = SrcCode::new("println!(\"hi\");", "/tmp/ws", "2021");
    let plan = src.plan();
    assert_eq!(plan.root, "/tmp/ws");
    assert_eq!(plan.files.len(), 2);
    assert_eq!(plan.files[0].path, "Cargo.toml");
    assert_eq!(
        plan.files[0].contents,
        "[package]\nname = \"tmp\"\nversion = \"0.1.0\"\nedition = \"2021\"\n[dependencies]"
    );
    assert_eq!(plan.files[1].path, "src/main.rs");
    assert_eq!(plan.files[1].contents, "fn main(){println!(\"hi\");}");
}

#[test]
fn workspace_second_run_leaves_no_residue() {
    let first = SrcCode::new("let a = 1;", "/tmp/ws", "2021").plan();
    let second = SrcCode::new("let b = 2;", "/tmp/ws", "2021").plan();
    // A run purges the workspace before writing, so after the second run
    // only the second plan's files can exist, whatever the first wrote.
    assert_eq!(second.files.len(), 2);
    for f in &second.files {
        assert!(!f.contents.contains("let a = 1;"));
    }
    assert!(first.files.iter().any(|f| f.contents.contains("let a = 1;")));
    assert!(second.files.iter().any(|f| f.contents.contains("let b = 2;")));
}

#[test]
fn ready_code_wraps_without_altering() {
    assert_eq!(ready_code("let x = 1;"), "fn main(){let x = 1;}");
}

#[test]
fn run_outcomes() {
    let ok = conclude_run(RunEvent::Finished {
        stdout: b"hi".to_vec(),
        stderr: Vec::new(),
        success: true,
    });
    assert_eq!(ok.unwrap(), "hi");

    let failed = conclude_run(RunEvent::Finished {
        stdout: Vec::new(),
        stderr: b"boom".to_vec(),
        success: false,
    });
    match failed {
        Err(Error::FailedRun(e)) => assert_eq!(e, "boom"),
        _ => panic!("a nonzero exit must surface its stderr"),
    }

    match conclude_run(RunEvent::Finished {
        stdout: vec![0xff],
        stderr: Vec::new(),
        success: true,
    }) {
        Err(Error::StrConvert) => {}
        _ => panic!("undecodable output must fail the conversion"),
    }

    match conclude_run(RunEvent::ToolchainMissing) {
        Err(Error::NotInstalledCargo) => {}
        _ => panic!("a missing toolchain must be its own error"),
    }

    match conclude_run(RunEvent::IoFailed("disk".to_string())) {
        Err(Error::Io(m)) => assert_eq!(m, "disk"),
        _ => panic!("an I/O fault must carry its cause"),
    }
}

#[test]
fn local_scenario_hi_is_delivered_inline() {
    let out = conclude_run(RunEvent::Finished {
        stdout: b"hi".to_vec(),
        stderr: Vec::new(),
        success: true,
    })
    .unwrap();
    match botrun::fetch::classify_response(out.into_bytes(), "text/plain") {
        botrun::classify::DeliveryPayload::CodeBlock { text, .. } => assert_eq!(text, "hi"),
        _ => panic!("a short successful run must be delivered as inline text"),
    }
}

#[test]
fn error_messages() {
    assert_eq!(Error::Io("x".to_string()).message(), "Io Error: x");
    assert_eq!(Error::NotInstalledCargo.message(), "not installed Rust run env");
    assert_eq!(Error::FailedRun("e".to_string()).message(), "failed run e");
    assert_eq!(Error::StrConvert.message(), "failed convert to String");
    assert_eq!(Error::PathIsNotDir.message(), "server error: Path isn't Dir");
}

struct NullRunner;

impl CodeRunner for NullRunner {
    fn run(&self) -> Result<String, Error> {
        Ok("ok".to_string())
    }
}

#[test]
fn code_runner_is_object_safe_enough_to_implement() {
    let r = NullRunner;
    assert_eq!(r.run().unwrap(), "ok");
}

#[test]
fn widths_follow_display_columns() {
    assert_eq!(get_str_len("ab"), 2);
    assert_eq!(get_str_len("\u{3042}"), 2);
    assert_eq!(get_str_len(""), 0);
    assert_eq!(get_max_len("ab\n\u{3042}\u{3044}\u{3046}\nx"), 6);
}

#[test]
fn mul_str_repeats() {
    assert_eq!(mul_str("ab", 3), "ababab");
    assert_eq!(mul_str("x", 0), "");
}

#[test]
fn bubble_frames_a_short_line() {
    let out = s2huki("ab");
    let expected = "\u{ef}\u{bc}\u{bf}\u{e4}\u{ba}\u{ba}\u{ef}\u{bc}\u{bf}\n\u{ef}\u{bc} ab \u{ef}\u{bc}\u{153}\n\u{ef}\u{bf}\u{a3}Y^\u{ef}\u{bf}\u{a3}\n";
    assert_eq!(out, expected);
    assert_eq!(try_s2huki("ab").as_deref(), Some(expected));
}

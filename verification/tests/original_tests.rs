use botrun::bubble::s2huki;
use botrun::repl::{code_format, FileContent};
use botrun::sandbox::gen_cargo_toml;

#[test]
fn test_gen() {
    let ed = "2024";
    println!("{}", gen_cargo_toml(ed));
}

#[test]
fn test_emb_code() {
    let code = r#"println!("Hello worold!");"#;
    let genf = FileContent::new(code);
    assert_eq!(genf.content, "fn main() {println!(\"Hello worold!\");}");
}

#[test]
fn cd_fmt_test() {
    let code = "!rrepl\n```rust\nprintln!(\"HEllo World\");\n```";
    let res = code_format(code);
    println!("lang: {}\ncode: {}", res.0, res.1);

    let code = "!rrepl\n```\nprintln!(\"HEllo World\");\n```";
    let res = code_format(code);
    println!("lang: {}\ncode: {}", res.0, res.1);

    let code = "!rrepl\n```python\nprintln!(\"HEllo World\");\n```";
    let res = code_format(code);
    println!("lang: {}\ncode: {}", res.0, res.1);
}

#[test]
fn test_s2huki() {
    let foo = "\u{e7}\u{aa}\u{e7}\u{201e}\u{b6}\u{e3}\u{ae}\u{e6}\u{ad}\u{bb}";
    let bar = "foo\nbar\nfoobar";

    println!("{}", s2huki(foo));
    println!("{}", s2huki(bar));
}

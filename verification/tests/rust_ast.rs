use eva_runtime::rust_ast::{extract_rust_ast, summary_from_items, use_tree_to_string, RustItem, RustUseTree};

fn strings(v: &[&str]) -> Vec<String> {
    v.iter().map(|s| s.to_string()).collect()
}

const SOURCE: &str = "use std::collections::{HashMap, BTreeSet as Set};\nuse crate::a::*;\nmod inner {\n    pub struct Deep;\n    fn helper() {}\n}\nmod outer;\npub enum Kind { A }\nstruct Plain;\n#[test]\nfn checks() {}\n#[cfg(test)]\nfn not_a_test() {}\nimpl Plain {}\nfn checks() {}\n";

#[test]
fn a_source_is_summarised_with_nested_modules() {
    let a = extract_rust_ast(SOURCE).unwrap();
    assert_eq!(a.modules, strings(&["inner", "outer"]));
    assert_eq!(a.functions, strings(&["checks", "helper", "not_a_test"]));
    assert_eq!(a.structs, strings(&["Deep", "Plain"]));
    assert_eq!(a.enums, strings(&["Kind"]));
    assert_eq!(a.use_imports, strings(&["crate::a::*", "std::collections::HashMap,BTreeSet as Set"]));
    assert_eq!(a.test_functions, strings(&["checks"]));
}

#[test]
fn an_unparsable_source_is_an_error() {
    let e = extract_rust_ast("fn (").unwrap_err();
    assert!(e.starts_with("failed to parse Rust AST: "));
    assert!(e.len() > "failed to parse Rust AST: ".len());
}

#[test]
fn summaries_of_built_items() {
    let items = vec![
        RustItem::Fn("a".to_string(), vec![Some("inline".to_string()), None, Some("test".to_string())]),
        RustItem::Fn("a".to_string(), Vec::new()),
        RustItem::Mod("m".to_string(), Some(vec![RustItem::Mod("n".to_string(), Some(vec![RustItem::Enum("E".to_string())]))])),
        RustItem::Other,
    ];
    let a = summary_from_items(&items);
    assert_eq!(a.functions, strings(&["a"]));
    assert_eq!(a.test_functions, strings(&["a"]));
    assert_eq!(a.modules, strings(&["m", "n"]));
    assert_eq!(a.enums, strings(&["E"]));
    assert!(a.use_imports.is_empty());
}

#[test]
fn import_trees_as_text() {
    let t = RustUseTree::Path(
        "a".to_string(),
        Box::new(RustUseTree::Group(vec![
            RustUseTree::Name("b".to_string()),
            RustUseTree::Glob,
            RustUseTree::Rename("c".to_string(), "d".to_string()),
        ])),
    );
    assert_eq!(use_tree_to_string(&t), "a::b,*,c as d");
    assert_eq!(use_tree_to_string(&RustUseTree::Group(Vec::new())), "");
}

fn parses(source: &str) -> bool {
    extract_rust_ast(source).is_ok()
}

fn refused(source: &str) -> bool {
    matches!(extract_rust_ast(source), Err(e) if e == "failed to parse Rust AST: source nests too deeply")
}

#[test]
fn deep_chains_within_the_bound_parse() {
    assert!(parses(&format!("fn f() {{ return {}1; }}", "return ".repeat(182))));
    assert!(parses(&format!("type T = {}u8{};", "Vec<".repeat(38), ">".repeat(38))));
    assert!(parses(&format!("use {}b;", "a::".repeat(192))));
    assert!(parses(&format!("fn f() {{ let x = {}true; }}", "!".repeat(181))));
    assert!(parses(&format!("fn f() {{ let c = {}0; }}", "|x| ".repeat(90))));
    assert!(parses(&format!("fn f() {{ {}1; }}", "a = ".repeat(183))));
    assert!(parses(&format!("fn f(x: {}u8) {{}}", "&".repeat(36))));
    assert!(parses(&format!("fn f(x: {}u8{}) {{}}", "[&".repeat(20), "]".repeat(20))));
    assert!(parses(&format!("type T = {}u8;", "fn() -> ".repeat(31))));
}

#[test]
fn chains_past_the_bound_are_refused() {
    assert!(refused(&format!("fn f() {{ return {}1; }}", "return ".repeat(183))));
    assert!(refused(&format!("type T = {}u8{};", "Vec<".repeat(39), ">".repeat(39))));
    assert!(refused(&format!("use {}b;", "a::".repeat(193))));
    assert!(refused(&format!("fn f() {{ let x = {}true; }}", "!".repeat(182))));
    assert!(refused(&format!("fn f() {{ let c = {}0; }}", "|x| ".repeat(91))));
    assert!(refused(&format!("fn f() {{ {}1; }}", "a = ".repeat(184))));
    assert!(refused(&format!("fn f(x: {}u8) {{}}", "&".repeat(37))));
    assert!(refused(&format!("fn f(x: {}u8{}) {{}}", "[&".repeat(21), "]".repeat(21))));
    assert!(refused(&format!("type T = {}u8;", "fn() -> ".repeat(32))));
    assert!(refused(&format!("fn f() {{ {}1{} }}", "(".repeat(70), ")".repeat(70))));
}

#[test]
fn literals_and_comments_do_not_hide_nesting() {
    let deep = format!("{}1{}", "(".repeat(70), ")".repeat(70));
    assert!(refused(&format!("fn f() {{ let s = \")))))))))))\"; {} }}", deep)));
    assert!(refused(&format!("fn f() {{ /* ))))))))) */ {} }}", deep)));
    assert!(refused(&format!("fn f() {{ let s = r#\")))))\"))))\"#; {} }}", deep)));
    assert!(refused(&format!("fn f() {{ let c = ')'; {} }}", deep)));
    assert!(parses("fn f() { let s = \"((((((((((((((((((((((((((((((((((((((((((((((((((((((((((((((((((((((\"; }"));
}

#[test]
fn long_flat_lists_are_not_refused() {
    let list = (0..2000).map(|i| format!("-{}", i)).collect::<Vec<_>>().join(", ");
    assert!(parses(&format!("const A: [i32; 2000] = [{}];", list)));
    let arms = (0..500).map(|i| format!("{} => return -{},", i, i)).collect::<Vec<_>>().join("\n");
    assert!(parses(&format!("fn f(x: i32) -> i32 {{ match x {{ {} _ => 0, }} }}", arms)));
    let branches = (0..150).map(|i| format!("if x == {} {{ 1 }} else ", i)).collect::<String>();
    assert!(parses(&format!("fn f(x: i32) -> i32 {{ {}{{ 0 }} }}", branches)));
}

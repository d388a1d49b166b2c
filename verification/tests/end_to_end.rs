use fuzz_finder::syntax::{
    FnArg, FnSignature, GenericArgument, Item, PathArguments, Segment, SourceFile, TypeExpr,
    TypePath,
};
use fuzz_finder::{parse_source, search_file, SearchError, Target};

fn target(name: &str, file_path: &str, line: usize) -> Target {
    Target { name: name.to_string(), file_path: file_path.to_string(), line }
}

fn named(ident: &str) -> TypeExpr {
    TypeExpr::Path(TypePath {
        qualified: false,
        leading_colon: false,
        segments: vec![Segment { ident: ident.to_string(), arguments: PathArguments::Absent }],
    })
}

#[test]
fn byte_slice_parameter_gives_one_target() {
    let found = search_file("src/lib.rs", "fn parse(data: &[u8]) {}").unwrap();
    assert_eq!(found, vec![target("parse", "src/lib.rs", 1)]);
}

#[test]
fn string_parameter_gives_one_target() {
    let found = search_file("src/lib.rs", "fn handle(s: String, n: i32) {}").unwrap();
    assert_eq!(found, vec![target("handle", "src/lib.rs", 1)]);
}

#[test]
fn no_parameters_give_no_target() {
    let found = search_file("src/lib.rs", "fn noop() {}").unwrap();
    assert_eq!(found, Vec::<Target>::new());
}

#[test]
fn two_fuzzable_parameters_give_two_targets() {
    let found = search_file("src/lib.rs", "fn both(a: Vec<u8>, b: String) {}").unwrap();
    assert_eq!(found, vec![target("both", "src/lib.rs", 1), target("both", "src/lib.rs", 1)]);
}

#[test]
fn targets_follow_the_order_of_the_file() {
    let source = "fn parse(data: &[u8]) {}\nfn handle(s: String, n: i32) {}\nfn noop() {}\nfn both(a: Vec<u8>, b: String) {}\n";
    let found = search_file("a.rs", source).unwrap();
    assert_eq!(
        found,
        vec![
            target("parse", "a.rs", 1),
            target("handle", "a.rs", 2),
            target("both", "a.rs", 4),
            target("both", "a.rs", 4),
        ]
    );
}

#[test]
fn nested_functions_come_after_their_parent() {
    let source = "fn outer(a: String) {\n    fn inner(b: &[u8]) {}\n}\nfn last(c: Vec<u8>) {}\n";
    let found = search_file("a.rs", source).unwrap();
    assert_eq!(
        found,
        vec![target("outer", "a.rs", 1), target("inner", "a.rs", 2), target("last", "a.rs", 4)]
    );
}

#[test]
fn methods_are_passed_over() {
    let source = "struct S;\nimpl S {\n    fn feed(&self, data: &[u8]) {}\n    fn make(text: String) -> S { S }\n}\n";
    let found = search_file("a.rs", source).unwrap();
    assert_eq!(found, Vec::<Target>::new());
}

#[test]
fn functions_inside_methods_are_found() {
    let source = "struct S;\nimpl S {\n    fn feed(&self, data: &[u8]) {\n        fn helper(raw: Vec<u8>) {}\n    }\n}\n";
    let found = search_file("a.rs", source).unwrap();
    assert_eq!(found, vec![target("helper", "a.rs", 4)]);
}

#[test]
fn functions_inside_modules_and_traits_are_found() {
    let source = "mod m {\n    pub fn a(x: String) {}\n}\ntrait T {\n    fn m(&self, d: &[u8]) {\n        fn b(y: &[u8]) {}\n    }\n}\n";
    let found = search_file("a.rs", source).unwrap();
    assert_eq!(found, vec![target("a", "a.rs", 2), target("b", "a.rs", 6)]);
}

#[test]
fn line_is_that_of_the_name() {
    let source = "#[inline]\npub\nfn\nspread(\n    data: &[u8],\n) {}\n";
    let found = search_file("a.rs", source).unwrap();
    assert_eq!(found, vec![target("spread", "a.rs", 4)]);
}

#[test]
fn unparsable_text_is_an_error() {
    let result = search_file("a.rs", "fn broken( {");
    assert!(matches!(result, Err(SearchError::Parse(_))));
}

#[test]
fn parse_error_carries_the_diagnostic() {
    let error = parse_source("fn ok() {}\nfn broken( {").unwrap_err();
    assert_eq!(error.line, 2);
    assert!(!error.message.is_empty());
}

#[test]
fn empty_text_has_no_declarations() {
    assert_eq!(parse_source("").unwrap(), SourceFile { items: vec![] });
    assert_eq!(search_file("a.rs", "").unwrap(), Vec::<Target>::new());
}

#[test]
fn parse_source_copies_signatures() {
    let file = parse_source("fn f(self, a: &mut [u8], b: Vec<u8>, c: (u8, u8)) {}").unwrap();
    let expected = SourceFile {
        items: vec![Item::Fn {
            sig: FnSignature {
                ident: "f".to_string(),
                line: 1,
                inputs: vec![
                    FnArg::Receiver,
                    FnArg::Typed(TypeExpr::Reference(Box::new(TypeExpr::Slice(Box::new(
                        named("u8"),
                    ))))),
                    FnArg::Typed(TypeExpr::Path(TypePath {
                        qualified: false,
        leading_colon: false,
                        segments: vec![Segment {
                            ident: "Vec".to_string(),
                            arguments: PathArguments::AngleBracketed(vec![GenericArgument::Type(
                                named("u8"),
                            )]),
                        }],
                    })),
                    FnArg::Typed(TypeExpr::Other),
                ],
            },
            nested: vec![],
        }],
    };
    assert_eq!(file, expected);
}

#[test]
fn parse_source_tells_methods_from_functions() {
    let file = parse_source("impl S {\n    fn m(&self) {\n        fn inner() {}\n    }\n}\n").unwrap();
    let expected = SourceFile {
        items: vec![Item::Method {
            sig: FnSignature { ident: "m".to_string(), line: 2, inputs: vec![FnArg::Receiver] },
            nested: vec![Item::Fn {
                sig: FnSignature { ident: "inner".to_string(), line: 3, inputs: vec![] },
                nested: vec![],
            }],
        }],
    };
    assert_eq!(file, expected);
}

#[test]
fn typed_receiver_is_not_a_typed_parameter() {
    let file = parse_source("fn f(self: Vec<u8>, y: String) {}").unwrap();
    match &file.items[0] {
        Item::Fn { sig, .. } => {
            assert_eq!(sig.inputs.len(), 2);
            assert_eq!(sig.inputs[0], FnArg::Receiver);
            assert_eq!(sig.inputs[1], FnArg::Typed(named("String")));
        }
        other => panic!("{:?}", other),
    }
    let found = search_file("a.rs", "fn f(self: Vec<u8>, y: String) {}").unwrap();
    assert_eq!(found, vec![target("f", "a.rs", 1)]);
}

#[test]
fn functions_in_odd_places_are_found() {
    let source = "const C: usize = { fn inside(a: String) {} 1 };\nfn g() { let c = |x: String| { fn deep(v: Vec<u8>) {} }; }\n";
    let found = search_file("a.rs", source).unwrap();
    assert_eq!(found, vec![target("inside", "a.rs", 1), target("deep", "a.rs", 2)]);
}

#[test]
fn declarations_without_a_body_of_their_own_are_not_functions() {
    let source = "extern \"C\" { fn ext(a: String); }\ntrait T { fn need(&self, d: &[u8]); fn given(d: Vec<u8>) {} }\nmacro_rules! m { () => { fn hidden(a: String) {} } }\n";
    let found = search_file("a.rs", source).unwrap();
    assert_eq!(found, Vec::<Target>::new());
}

#[test]
fn byte_order_mark_and_shebang_are_skipped() {
    let found = search_file("a.rs", "\u{feff}fn f(a: String) {}").unwrap();
    assert_eq!(found, vec![target("f", "a.rs", 1)]);
    let found = search_file("a.rs", "#!/usr/bin/env run\nfn f(a: String) {}").unwrap();
    assert_eq!(found, vec![target("f", "a.rs", 2)]);
}

#[test]
fn raw_identifiers_keep_their_prefix() {
    let found = search_file("a.rs", "fn r#match(a: String, b: r#String) {}").unwrap();
    assert_eq!(found, vec![target("r#match", "a.rs", 1)]);
}

#[test]
fn searching_twice_gives_the_same() {
    let source = "fn a(x: String) {\n    fn b(y: &[u8]) {}\n}\n";
    assert_eq!(search_file("a.rs", source).unwrap(), search_file("a.rs", source).unwrap());
    assert_eq!(parse_source(source).unwrap(), parse_source(source).unwrap());
}

#[test]
fn lines_are_counted_from_the_start_of_each_text() {
    let first = "\n\nfn a(x: String) {}\n";
    let second = "fn b(y: &[u8]) {}\n";
    for _ in 0..3 {
        assert_eq!(search_file("1.rs", first).unwrap(), vec![target("a", "1.rs", 3)]);
        assert!(search_file("x.rs", "fn (").is_err());
        assert_eq!(search_file("2.rs", second).unwrap(), vec![target("b", "2.rs", 1)]);
        assert_eq!(parse_source("\n\n\nfn (").unwrap_err().line, 4);
    }
}

use fuzz_finder::{
    collect_targets, is_source_extension, scan_root, search_file, ParseError, ScanRoot,
    SearchError, Target,
};

fn target(name: &str, file_path: &str, line: usize) -> Target {
    Target { name: name.to_string(), file_path: file_path.to_string(), line }
}

#[test]
fn directory_wins_over_file() {
    assert_eq!(scan_root(true, false), Ok(ScanRoot::Directory));
    assert_eq!(scan_root(true, true), Ok(ScanRoot::Directory));
    assert_eq!(scan_root(false, true), Ok(ScanRoot::File));
}

#[test]
fn neither_file_nor_directory_is_an_invalid_path() {
    assert_eq!(scan_root(false, false), Err(SearchError::InvalidPath));
}

#[test]
fn only_rs_is_a_source_extension() {
    assert!(is_source_extension(Some("rs")));
    assert!(!is_source_extension(None));
    assert!(!is_source_extension(Some("")));
    assert!(!is_source_extension(Some("RS")));
    assert!(!is_source_extension(Some("rs ")));
    assert!(!is_source_extension(Some("r")));
    assert!(!is_source_extension(Some("rss")));
    assert!(!is_source_extension(Some("txt")));
    assert!(!is_source_extension(Some(".rs")));
}

#[test]
fn failed_files_are_passed_over() {
    let outcomes = vec![
        search_file("one.rs", "fn one(a: String) {}\nfn two(b: &[u8], c: Vec<u8>) {}\n"),
        search_file("broken.rs", "fn broken( {"),
        search_file("three.rs", "fn quiet() {}\nfn three(d: Vec<u8>) {}\n"),
    ];
    assert!(outcomes[1].is_err());
    assert_eq!(
        collect_targets(outcomes),
        vec![
            target("one", "one.rs", 1),
            target("two", "one.rs", 2),
            target("two", "one.rs", 2),
            target("three", "three.rs", 2),
        ]
    );
}

#[test]
fn every_kind_of_failure_is_passed_over() {
    let outcomes = vec![
        Err(SearchError::Io("permission denied".to_string())),
        Ok(vec![target("a", "a.rs", 1)]),
        Err(SearchError::Parse(ParseError { message: "expected `,`".to_string(), line: 1, column: 4 })),
        Err(SearchError::InvalidPath),
        Ok(vec![]),
        Ok(vec![target("b", "b.rs", 2), target("c", "b.rs", 3)]),
    ];
    assert_eq!(
        collect_targets(outcomes),
        vec![target("a", "a.rs", 1), target("b", "b.rs", 2), target("c", "b.rs", 3)]
    );
}

#[test]
fn nothing_searched_gives_nothing() {
    assert_eq!(collect_targets(vec![]), Vec::<Target>::new());
    assert_eq!(collect_targets(vec![Err(SearchError::InvalidPath)]), Vec::<Target>::new());
}

#[test]
fn single_file_surfaces_its_parse_error() {
    match search_file("broken.rs", "fn ok() {}\nstruct {") {
        Err(SearchError::Parse(error)) => {
            assert_eq!(error.line, 2);
            assert!(!error.message.is_empty());
        }
        other => panic!("{:?}", other),
    }
}

use fuzz_finder::target::decimal_string;
use fuzz_finder::Target;

fn target(name: &str, file_path: &str, line: usize) -> Target {
    Target { name: name.to_string(), file_path: file_path.to_string(), line }
}

#[test]
fn target_is_rendered_on_one_line() {
    assert_eq!(target("parse", "src/lib.rs", 12).to_string(), "src/lib.rs:12: parse");
}

#[test]
fn rendering_keeps_every_character() {
    assert_eq!(target("größe", "a b/ü:1.rs", 7).to_string(), "a b/ü:1.rs:7: größe");
    assert_eq!(target("", "", 0).to_string(), ":0: ");
}

#[test]
fn rendering_of_large_lines() {
    assert_eq!(target("f", "x.rs", 10).to_string(), "x.rs:10: f");
    assert_eq!(target("f", "x.rs", 1234567890).to_string(), "x.rs:1234567890: f");
    assert_eq!(
        target("f", "x.rs", usize::MAX).to_string(),
        format!("x.rs:{}: f", usize::MAX)
    );
}

#[test]
fn decimal_string_writes_base_ten() {
    assert_eq!(decimal_string(0), "0");
    assert_eq!(decimal_string(9), "9");
    assert_eq!(decimal_string(10), "10");
    assert_eq!(decimal_string(99), "99");
    assert_eq!(decimal_string(100), "100");
    assert_eq!(decimal_string(1002003), "1002003");
    assert_eq!(decimal_string(9876543210), "9876543210");
    assert_eq!(decimal_string(usize::MAX), format!("{}", usize::MAX));
}

#[test]
fn targets_compare_by_their_fields() {
    assert_eq!(target("a", "f.rs", 1), target("a", "f.rs", 1));
    assert_ne!(target("a", "f.rs", 1), target("a", "f.rs", 2));
    assert_ne!(target("a", "f.rs", 1), target("b", "f.rs", 1));
    assert_ne!(target("a", "f.rs", 1), target("a", "g.rs", 1));
    let first = target("a", "f.rs", 1);
    assert_eq!(first.clone(), first);
}

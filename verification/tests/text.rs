use futhark_bindgen::text::{
    c_identifier, chars_of, concat_all, decimal, extension, file_name, file_stem, identifier_for,
    join, join_all, parent, str_eq, str_precedes,
};

#[test]
fn decimal_numerals() {
    assert_eq!(decimal(0), "0");
    assert_eq!(decimal(7), "7");
    assert_eq!(decimal(10), "10");
    assert_eq!(decimal(1234567890), "1234567890");
    assert_eq!(decimal(u64::MAX), "18446744073709551615");
}

#[test]
fn identifiers() {
    assert!(c_identifier("add"));
    assert!(c_identifier("_x9"));
    assert!(c_identifier("Pair"));
    assert!(!c_identifier(""));
    assert!(!c_identifier("9x"));
    assert!(!c_identifier("[]f64"));
    assert!(!c_identifier("a-b"));
    assert!(!c_identifier("na\u{ef}ve"));
}

#[test]
fn order_of_names() {
    assert!(str_precedes("a", "b"));
    assert!(!str_precedes("b", "a"));
    assert!(str_precedes("a", "ab"));
    assert!(!str_precedes("ab", "a"));
    assert!(!str_precedes("a", "a"));
    assert!(str_precedes("", "a"));
    assert!(!str_precedes("", ""));
    assert!(str_precedes("Pair", "[]f64"));
    assert!(str_precedes("z", "\u{e9}"));
    let mut names = vec!["sum", "add", "[]f64", "Pair", "addx", ""];
    names.sort();
    for i in 0..names.len() {
        for j in 0..names.len() {
            assert_eq!(str_precedes(names[i], names[j]), i < j);
        }
    }
}

#[test]
fn equality_of_texts() {
    assert!(str_eq("", ""));
    assert!(str_eq("abc", "abc"));
    assert!(!str_eq("abc", "abd"));
    assert!(!str_eq("abc", "ab"));
    assert_eq!(chars_of("h\u{e9}!"), vec!['h', '\u{e9}', '!']);
}

#[test]
fn path_parts() {
    assert_eq!(file_name("a/b/prog.fut"), "prog.fut");
    assert_eq!(file_name("prog.fut"), "prog.fut");
    assert_eq!(file_name("a/"), "");
    assert_eq!(file_stem("a/b/prog.fut"), "prog");
    assert_eq!(file_stem("a.d/prog"), "prog");
    assert_eq!(file_stem("prog.tar.gz"), "prog.tar");
    assert_eq!(file_stem(".hidden"), ".hidden");
    assert_eq!(extension("out/bindings.rs"), Some("rs"));
    assert_eq!(extension("out.d/bindings"), None);
    assert_eq!(extension(".hidden"), None);
    assert_eq!(extension("x."), Some(""));
    assert_eq!(parent("a/b/prog.fut"), "a/b");
    assert_eq!(parent("prog.fut"), "");
    assert_eq!(parent("/prog.fut"), "/");
}

#[test]
fn joining_paths() {
    assert_eq!(join("out", "prog"), "out/prog");
    assert_eq!(join("out/", "prog"), "out/prog");
    assert_eq!(join("", "prog"), "prog");
    assert_eq!(join("out", "/abs/prog"), "/abs/prog");
    assert_eq!(join("/", "prog"), "/prog");
}

#[test]
fn joining_texts() {
    let parts = vec!["a".to_string(), "b".to_string(), "c".to_string()];
    assert_eq!(join_all(&parts, ", "), "a, b, c");
    assert_eq!(concat_all(&parts), "abc");
    assert_eq!(join_all(&parts[..1].to_vec(), ", "), "a");
    assert_eq!(join_all(&Vec::new(), ", "), "");
    assert_eq!(concat_all(&Vec::new()), "");
}

#[test]
fn identifiers_for_names() {
    assert_eq!(identifier_for("fst"), "fst");
    assert_eq!(identifier_for("_x1"), "_x1");
    assert_eq!(identifier_for("0"), "field_0");
    assert_eq!(identifier_for(""), "field_");
    assert_eq!(identifier_for("a b"), "field_a_b");
    assert_eq!(identifier_for("[]f64"), "field___f64");
    assert_eq!(identifier_for("na\u{ef}ve"), "field_na_ve");
    for name in ["fst", "0", "", "a b", "x.y", "9lives", "\u{e9}"] {
        assert!(c_identifier(&identifier_for(name)));
    }
}

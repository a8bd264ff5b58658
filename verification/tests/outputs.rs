use futhark_bindgen::{build, build_in_out_dir, Config, Error, Generate, Library, Manifest, Rust};

fn library(text: &str) -> Library {
    Library {
        manifest: Manifest::parse(text.as_bytes()).unwrap(),
        c_file: "target/out/prog.c".to_string(),
        h_file: "target/out/prog.h".to_string(),
        src: "prog.fut".to_string(),
    }
}

const ADD: &str = r#"{"backend":"cuda","version":"1","types":{},"entry_points":{
    "add":{"cfun":"futhark_entry_add","inputs":[{"type":"i32"},{"type":"i32"}],"outputs":[{"type":"i32"}]}}}"#;

#[test]
fn no_library_leaves_nothing_to_do() {
    assert!(matches!(build(None, "target/out", "bindings.rs"), Ok(None)));
    assert!(matches!(build(None, "target/out", "bindings.txt"), Ok(None)));
    assert!(matches!(build_in_out_dir(None, "target/out", "bindings.rs"), Ok(None)));
}

#[test]
fn build_writes_below_the_output_directory() {
    let lib = library(ADD);
    let outputs = build(Some(&lib), "target/out", "bindings.rs").unwrap().unwrap();
    assert_eq!(outputs.destination, "target/out/bindings.rs");
    let config = Config::new("target/out/bindings.rs").unwrap();
    assert_eq!(outputs.text, Rust.generate(&lib, &config).unwrap());
    let plan = lib.link("demo");
    assert_eq!(plan.archive, "futhark_generate_demo");
    assert_eq!(plan.source, "target/out/prog.c");
    assert_eq!(
        plan.directives,
        vec![
            "cargo:rustc-link-lib=futhark_generate_demo".to_string(),
            "cargo:rustc-link-lib=cuda".to_string(),
            "cargo:rustc-link-lib=cudart".to_string(),
            "cargo:rustc-link-lib=nvrtc".to_string(),
            "cargo:rustc-link-lib=m".to_string(),
        ]
    );
}

#[test]
fn the_output_directory_is_joined_once() {
    let lib = library(ADD);
    let a = build(Some(&lib), "/t/out", "sub/k.ml").unwrap().unwrap();
    assert_eq!(a.destination, "/t/out/sub/k.ml");
    assert!(a.text.starts_with("(* Bindings of the module `k`. *)\n"));
    let b = build_in_out_dir(Some(&lib), "/t/out", "sub/k.ml").unwrap().unwrap();
    assert_eq!(b.destination, a.destination);
    assert_eq!(b.text, a.text);
    let c = build_in_out_dir(Some(&lib), "/t/out", "/t/out/sub/k.ml").unwrap().unwrap();
    assert_eq!(c.destination, "/t/out/sub/k.ml");
}

#[test]
fn build_refuses_an_unknown_host_language() {
    let lib = library(ADD);
    match build(Some(&lib), "target/out", "bindings.py") {
        Err(Error::InvalidOutputLanguage) => {}
        other => panic!("{:?}", other),
    }
}

#[test]
fn build_refuses_an_invalid_manifest() {
    let lib = library(r#"{"backend":"c","version":"1","types":{},"entry_points":{
        "f":{"cfun":"c","inputs":[],"outputs":[{"type":"[]f64"}]}}}"#);
    match build(Some(&lib), "target/out", "bindings.rs") {
        Err(Error::ManifestParse(_)) => {}
        other => panic!("{:?}", other),
    }
}

use futhark_bindgen::{Config, Error, Generator, OCaml, Rust, Target};

#[test]
fn rust_destination() {
    let c = Config::new("out/bindings.rs").unwrap();
    assert_eq!(c.target(), Target::Rust);
    assert_eq!(c.destination(), "out/bindings.rs");
    assert_eq!(c.module_name(), "bindings");
    assert!(c.attributes());
    assert_eq!(c.detect(), Generator::Rust(Rust));
}

#[test]
fn ocaml_destination() {
    let c = Config::new("kmeans.ml").unwrap();
    assert_eq!(c.target(), Target::OCaml);
    assert_eq!(c.module_name(), "kmeans");
    assert_eq!(c.detect(), Generator::OCaml(OCaml));
}

#[test]
fn other_destinations_are_refused() {
    for dest in ["out/bindings.py", "out/bindings", "out.rs/bindings", ".rs", "bindings.RS", "a.rs.txt", ""] {
        match Config::new(dest) {
            Err(Error::InvalidOutputLanguage) => {}
            other => panic!("{}: {:?}", dest, other),
        }
    }
}

#[test]
fn overrides() {
    let c = Config::new("out/bindings.rs").unwrap().with_module_name("kernels").with_attributes(false);
    assert_eq!(c.module_name(), "kernels");
    assert!(!c.attributes());
    assert_eq!(c.destination(), "out/bindings.rs");
    assert_eq!(c.target(), Target::Rust);
}

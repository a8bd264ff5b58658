use futhark_bindgen::document::{get, Json};
use futhark_bindgen::manifest::{Composite, TypeDecl};
use futhark_bindgen::{Backend, Error, Manifest};

const FULL: &str = r#"{
  "backend": "opencl",
  "version": "0.25.13",
  "entry_points": {
    "sum": {
      "cfun": "futhark_entry_sum",
      "inputs": [{"name": "xs", "type": "[]f64", "unique": false}],
      "outputs": [{"type": "f64"}],
      "tuning_params": ["sum.group_size", "sum.tile"]
    },
    "inplace_inc": {
      "cfun": "futhark_entry_inplace_inc",
      "inputs": [{"type": "[]f64", "unique": true}, {"type": "pair"}],
      "outputs": [{"type": "[]f64", "unique": true}]
    }
  },
  "types": {
    "[]f64": {
      "kind": "array",
      "ctype": "struct futhark_f64_1d *",
      "elemtype": "f64",
      "rank": 1,
      "ops": {
        "free": "futhark_free_f64_1d",
        "shape": "futhark_shape_f64_1d",
        "values": "futhark_values_f64_1d",
        "new": "futhark_new_f64_1d",
        "index": "futhark_index_f64_1d"
      }
    },
    "pair": {
      "kind": "opaque",
      "ops": {"free": "free_pair", "store": "store_pair", "restore": "restore_pair"},
      "view": "record",
      "projections": [
        {"name": "fst", "project": "project_pair_fst", "type": "i32"},
        {"name": "snd", "project": "project_pair_snd", "type": "[]f64"}
      ]
    }
  },
  "extra": [1, 2.5, -3, null, {"deep": true}]
}"#;

fn refused(text: &str) {
    match Manifest::parse(text.as_bytes()) {
        Err(Error::ManifestParse(_)) => {}
        other => panic!("{}: {:?}", text, other),
    }
}

fn minimal(entry_points: &str, types: &str) -> String {
    format!(
        r#"{{"backend":"c","version":"1","entry_points":{{{}}},"types":{{{}}}}}"#,
        entry_points, types
    )
}

#[test]
fn reads_a_full_manifest() {
    let m = Manifest::parse(FULL.as_bytes()).unwrap();
    assert_eq!(m.backend(), Backend::OpenCL);
    assert_eq!(m.version(), "0.25.13");
    assert_eq!(m.entry_points().len(), 2);
    assert_eq!(m.entry_points()[0].0, "inplace_inc");
    assert_eq!(m.entry_points()[1].0, "sum");
    let sum = m.entry_point("sum").unwrap();
    assert_eq!(sum.cfun, "futhark_entry_sum");
    assert_eq!(sum.inputs.len(), 1);
    assert_eq!(sum.inputs[0].ty, "[]f64");
    assert!(!sum.inputs[0].unique);
    assert_eq!(sum.outputs.len(), 1);
    assert_eq!(sum.outputs[0].ty, "f64");
    assert_eq!(sum.tuning_params, Some(vec!["sum.group_size".to_string(), "sum.tile".to_string()]));
    let inc = m.entry_point("inplace_inc").unwrap();
    assert!(inc.inputs[0].unique);
    assert!(!inc.inputs[1].unique);
    assert_eq!(inc.inputs[1].ty, "pair");
    assert_eq!(inc.tuning_params, None);
    match m.type_decl("[]f64") {
        Some(TypeDecl::Array(a)) => {
            assert_eq!(a.elemtype, "f64");
            assert_eq!(a.rank, 1);
            assert_eq!(a.ops.new, "futhark_new_f64_1d");
            assert_eq!(a.ops.free, "futhark_free_f64_1d");
            assert_eq!(a.ops.shape, "futhark_shape_f64_1d");
            assert_eq!(a.ops.values, "futhark_values_f64_1d");
            assert_eq!(a.ops.values_raw, None);
        }
        other => panic!("{:?}", other),
    }
    match m.type_decl("pair") {
        Some(TypeDecl::Opaque(o)) => {
            assert_eq!(o.ops.free, "free_pair");
            assert_eq!(o.ops.store, "store_pair");
            assert_eq!(o.ops.restore, "restore_pair");
            assert_eq!(o.composite, Composite::Record);
            assert_eq!(o.projections.len(), 2);
            assert_eq!(o.projections[0].name, "fst");
            assert_eq!(o.projections[0].project, "project_pair_fst");
            assert_eq!(o.projections[0].ty, "i32");
            assert_eq!(o.projections[1].ty, "[]f64");
        }
        other => panic!("{:?}", other),
    }
    assert!(m.is_valid());
}

#[test]
fn unknown_members_are_passed_over() {
    let text = r#"{"later":{"x":[1,2]},"backend":"c","version":"9","entry_points":{},"types":{},"zz":null}"#;
    let m = Manifest::parse(text.as_bytes()).unwrap();
    assert_eq!(m.backend(), Backend::C);
    assert_eq!(m.version(), "9");
    assert!(m.entry_points().is_empty());
    assert!(m.types().is_empty());
}

#[test]
fn unique_defaults_to_false() {
    let text = minimal(r#""f":{"cfun":"c_f","inputs":[{"type":"i32"},{"type":"i64","unique":true}],"outputs":[]}"#, "");
    let m = Manifest::parse(text.as_bytes()).unwrap();
    let f = m.entry_point("f").unwrap();
    assert!(!f.inputs[0].unique);
    assert!(f.inputs[1].unique);
}

#[test]
fn text_that_is_no_json_is_refused() {
    refused("");
    refused("{");
    refused("{\"backend\": \"c\",}");
    refused("not json");
    refused("{\"backend\":\"c\",\"version\":\"1\",\"entry_points\":{},\"types\":{}} trailing");
}

#[test]
fn a_document_that_is_no_object_is_refused() {
    refused("[]");
    refused("null");
    refused("\"manifest\"");
    refused("3");
}

#[test]
fn missing_members_are_refused() {
    refused(r#"{"version":"1","entry_points":{},"types":{}}"#);
    refused(r#"{"backend":"c","entry_points":{},"types":{}}"#);
    refused(r#"{"backend":"c","version":"1","types":{}}"#);
    refused(r#"{"backend":"c","version":"1","entry_points":{}}"#);
    refused(&minimal(r#""f":{"inputs":[],"outputs":[]}"#, ""));
    refused(&minimal(r#""f":{"cfun":"c","outputs":[]}"#, ""));
    refused(&minimal(r#""f":{"cfun":"c","inputs":[]}"#, ""));
    refused(&minimal(r#""f":{"cfun":"c","inputs":[{}],"outputs":[]}"#, ""));
    refused(&minimal(r#""f":{"cfun":"c","inputs":[],"outputs":[{"unique":true}]}"#, ""));
    refused(&minimal("", r#""t":{"elemtype":"f64","rank":1,"ops":{"new":"n","free":"f","shape":"s","values":"v"}}"#));
    refused(&minimal("", r#""t":{"kind":"array","rank":1,"ops":{"new":"n","free":"f","shape":"s","values":"v"}}"#));
    refused(&minimal("", r#""t":{"kind":"array","elemtype":"f64","ops":{"new":"n","free":"f","shape":"s","values":"v"}}"#));
    refused(&minimal("", r#""t":{"kind":"array","elemtype":"f64","rank":1}"#));
    refused(&minimal("", r#""t":{"kind":"array","elemtype":"f64","rank":1,"ops":{"free":"f","shape":"s","values":"v"}}"#));
    refused(&minimal("", r#""t":{"kind":"opaque"}"#));
    refused(&minimal("", r#""t":{"kind":"opaque","ops":{"free":"f","store":"s"}}"#));
    refused(&minimal("", r#""t":{"kind":"opaque","ops":{"free":"f","store":"s","restore":"r"},"projections":[{"name":"x","type":"i32"}]}"#));
}

#[test]
fn mistyped_members_are_refused() {
    refused(r#"{"backend":7,"version":"1","entry_points":{},"types":{}}"#);
    refused(r#"{"backend":"fortran","version":"1","entry_points":{},"types":{}}"#);
    refused(r#"{"backend":"c","version":1,"entry_points":{},"types":{}}"#);
    refused(r#"{"backend":"c","version":"1","entry_points":[],"types":{}}"#);
    refused(r#"{"backend":"c","version":"1","entry_points":{},"types":null}"#);
    refused(&minimal(r#""f":[]"#, ""));
    refused(&minimal(r#""f":{"cfun":"c","inputs":{},"outputs":[]}"#, ""));
    refused(&minimal(r#""f":{"cfun":"c","inputs":["i32"],"outputs":[]}"#, ""));
    refused(&minimal(r#""f":{"cfun":"c","inputs":[{"type":"i32","unique":"yes"}],"outputs":[]}"#, ""));
    refused(&minimal(r#""f":{"cfun":"c","inputs":[{"type":"i32","unique":null}],"outputs":[]}"#, ""));
    refused(&minimal(r#""f":{"cfun":"c","inputs":[],"outputs":[],"tuning_params":"x"}"#, ""));
    refused(&minimal(r#""f":{"cfun":"c","inputs":[],"outputs":[],"tuning_params":[1]}"#, ""));
    refused(&minimal("", r#""t":{"kind":"tuple"}"#));
    refused(&minimal("", r#""t":{"kind":"array","elemtype":"f64","rank":"1","ops":{"new":"n","free":"f","shape":"s","values":"v"}}"#));
    refused(&minimal("", r#""t":{"kind":"array","elemtype":"f64","rank":1.5,"ops":{"new":"n","free":"f","shape":"s","values":"v"}}"#));
    refused(&minimal("", r#""t":{"kind":"array","elemtype":"f64","rank":-1,"ops":{"new":"n","free":"f","shape":"s","values":"v"}}"#));
    refused(&minimal("", r#""t":{"kind":"array","elemtype":"f64","rank":1,"ops":{"new":"n","free":"f","shape":"s","values":"v","values_raw":3}}"#));
    refused(&minimal("", r#""t":{"kind":"opaque","ops":{"free":"f","store":"s","restore":"r"},"view":"union"}"#));
    refused(&minimal("", r#""t":{"kind":"opaque","ops":{"free":"f","store":"s","restore":"r"},"projections":{}}"#));
}

#[test]
fn optional_members_may_be_null() {
    let text = minimal(
        r#""f":{"cfun":"c","inputs":[],"outputs":[],"tuning_params":null}"#,
        r#""a":{"kind":"array","elemtype":"f64","rank":2,"ops":{"new":"n","free":"f","shape":"s","values":"v","values_raw":"r"}},
           "o":{"kind":"opaque","ops":{"free":"f","store":"s","restore":"r"},"view":null,"projections":null}"#,
    );
    let m = Manifest::parse(text.as_bytes()).unwrap();
    assert_eq!(m.entry_point("f").unwrap().tuning_params, None);
    match m.type_decl("a") {
        Some(TypeDecl::Array(a)) => {
            assert_eq!(a.rank, 2);
            assert_eq!(a.ops.values_raw, Some("r".to_string()));
        }
        other => panic!("{:?}", other),
    }
    match m.type_decl("o") {
        Some(TypeDecl::Opaque(o)) => {
            assert_eq!(o.composite, Composite::Plain);
            assert!(o.projections.is_empty());
        }
        other => panic!("{:?}", other),
    }
}

#[test]
fn sum_view() {
    let text = minimal("", r#""o":{"kind":"opaque","ops":{"free":"f","store":"s","restore":"r"},"view":"sum"}"#);
    let m = Manifest::parse(text.as_bytes()).unwrap();
    match m.type_decl("o") {
        Some(TypeDecl::Opaque(o)) => assert_eq!(o.composite, Composite::Sum),
        other => panic!("{:?}", other),
    }
}

#[test]
fn a_name_that_occurs_twice_in_a_document_is_refused() {
    let entry = Json::Object(vec![
        ("cfun".to_string(), Json::Text("c".to_string())),
        ("inputs".to_string(), Json::List(vec![])),
        ("outputs".to_string(), Json::List(vec![])),
    ]);
    let again = Json::Object(vec![
        ("cfun".to_string(), Json::Text("d".to_string())),
        ("inputs".to_string(), Json::List(vec![])),
        ("outputs".to_string(), Json::List(vec![])),
    ]);
    let doc = Json::Object(vec![
        ("backend".to_string(), Json::Text("c".to_string())),
        ("version".to_string(), Json::Text("1".to_string())),
        ("entry_points".to_string(), Json::Object(vec![("f".to_string(), entry), ("f".to_string(), again)])),
        ("types".to_string(), Json::Object(vec![])),
    ]);
    match Manifest::from_json(&doc) {
        Err(Error::ManifestParse(_)) => {}
        other => panic!("{:?}", other),
    }
}

#[test]
fn members_are_found_by_name() {
    let members = vec![
        ("a".to_string(), Json::Integer(1)),
        ("b".to_string(), Json::Bool(true)),
        ("a".to_string(), Json::Integer(2)),
    ];
    match get(&members, "a") {
        Some(Json::Integer(1)) => {}
        other => panic!("{:?}", other),
    }
    match get(&members, "b") {
        Some(Json::Bool(true)) => {}
        other => panic!("{:?}", other),
    }
    assert!(get(&members, "c").is_none());
    assert!(get(&Vec::new(), "a").is_none());
}

#[test]
fn writing_then_reading_gives_the_manifest_back() {
    let m = Manifest::parse(FULL.as_bytes()).unwrap();
    let doc = m.to_json();
    let again = Manifest::from_json(&doc).unwrap();
    assert_eq!(format!("{:?}", again), format!("{:?}", m));
    assert_eq!(format!("{:?}", again.to_json()), format!("{:?}", doc));
    match &doc {
        Json::Object(members) => {
            let names: Vec<&str> = members.iter().map(|(k, _)| k.as_str()).collect();
            assert_eq!(names, vec!["backend", "version", "entry_points", "types"]);
            match get(members, "backend") {
                Some(Json::Text(b)) => assert_eq!(b, "opencl"),
                other => panic!("{:?}", other),
            }
        }
        other => panic!("{:?}", other),
    }
}

#[test]
fn numbers_of_a_document() {
    let text = minimal("", r#""a":{"kind":"array","elemtype":"f64","rank":18446744073709551615,"ops":{"new":"n","free":"f","shape":"s","values":"v"}}"#);
    let m = Manifest::parse(text.as_bytes()).unwrap();
    match m.type_decl("a") {
        Some(TypeDecl::Array(a)) => assert_eq!(a.rank, u64::MAX),
        other => panic!("{:?}", other),
    }
    refused(&minimal("", r#""a":{"kind":"array","elemtype":"f64","rank":18446744073709551616,"ops":{"new":"n","free":"f","shape":"s","values":"v"}}"#));
    refused(&minimal("", r#""a":{"kind":"array","elemtype":"f64","rank":1e0,"ops":{"new":"n","free":"f","shape":"s","values":"v"}}"#));
}

fn fault(text: &str) -> String {
    match Manifest::parse(text.as_bytes()) {
        Err(Error::ManifestParse(detail)) => detail,
        other => panic!("{}: {:?}", text, other),
    }
}

#[test]
fn faults_say_what_is_wrong() {
    assert_eq!(fault("[]"), "no object: the manifest");
    assert_eq!(fault(r#"{"version":"1","entry_points":{},"types":{}}"#), "no text under the name backend");
    assert_eq!(fault(r#"{"backend":"fortran","version":"1","entry_points":{},"types":{}}"#), "unknown backend: fortran");
    assert_eq!(fault(r#"{"backend":"c","version":1,"entry_points":{},"types":{}}"#), "no text under the name version");
    assert_eq!(fault(r#"{"backend":"c","version":"1","entry_points":[],"types":{}}"#), "no object under the name entry_points");
    assert_eq!(fault(r#"{"backend":"c","version":"1","entry_points":{}}"#), "no object under the name types");
    assert_eq!(fault(&minimal(r#""f":7"#, "")), "no object: an entry point");
    assert_eq!(fault(&minimal(r#""f":{"inputs":[],"outputs":[]}"#, "")), "no text under the name cfun");
    assert_eq!(fault(&minimal(r#""f":{"cfun":"c","outputs":[]}"#, "")), "no list under the name inputs");
    assert_eq!(fault(&minimal(r#""f":{"cfun":"c","inputs":[1],"outputs":[]}"#, "")), "no object: an argument");
    assert_eq!(fault(&minimal(r#""f":{"cfun":"c","inputs":[{"type":"i32"},{}],"outputs":[]}"#, "")), "no text under the name type");
    assert_eq!(fault(&minimal(r#""f":{"cfun":"c","inputs":[{"type":"i32","unique":1}],"outputs":[]}"#, "")), "no truth value under the name unique");
    assert_eq!(fault(&minimal(r#""f":{"cfun":"c","inputs":[],"outputs":[[]]}"#, "")), "no object: a result");
    assert_eq!(fault(&minimal(r#""f":{"cfun":"c","inputs":[],"outputs":[],"tuning_params":{}}"#, "")), "neither list nor null under the name tuning_params");
    assert_eq!(fault(&minimal(r#""f":{"cfun":"c","inputs":[],"outputs":[],"tuning_params":["a",2]}"#, "")), "no text: an item of a list");
    assert_eq!(fault(&minimal("", r#""t":[]"#)), "no object: a type");
    assert_eq!(fault(&minimal("", r#""t":{}"#)), "no text under the name kind");
    assert_eq!(fault(&minimal("", r#""t":{"kind":"tuple"}"#)), "unknown kind of type: tuple");
    assert_eq!(fault(&minimal("", r#""t":{"kind":"array","elemtype":"f64","rank":-1,"ops":{}}"#)), "no natural number under the name rank");
    assert_eq!(fault(&minimal("", r#""t":{"kind":"array","elemtype":"f64","rank":1}"#)), "no object under the name ops");
    assert_eq!(fault(&minimal("", r#""t":{"kind":"array","elemtype":"f64","rank":1,"ops":{"new":"n","free":"f","shape":"s","values":"v","values_raw":1}}"#)), "neither text nor null under the name values_raw");
    assert_eq!(fault(&minimal("", r#""t":{"kind":"opaque","ops":{"free":"f","store":"s"}}"#)), "no text under the name restore");
    assert_eq!(fault(&minimal("", r#""t":{"kind":"opaque","ops":{"free":"f","store":"s","restore":"r"},"view":"union"}"#)), "unknown view: union");
    assert_eq!(fault(&minimal("", r#""t":{"kind":"opaque","ops":{"free":"f","store":"s","restore":"r"},"projections":[3]}"#)), "no object: a projection");
}

#[test]
fn the_first_fault_is_reported() {
    assert_eq!(fault(r#"{"backend":7,"version":8,"entry_points":9}"#), "no text under the name backend");
    assert_eq!(
        fault(&minimal(r#""a":{"cfun":"c","inputs":[],"outputs":[{}]},"b":7"#, r#""t":3"#)),
        "no text under the name type"
    );
    assert_eq!(fault(&minimal(r#""f":{"cfun":"c","inputs":[{"type":1},2],"outputs":3}"#, "")), "no text under the name type");
}

#[test]
fn the_message_of_the_json_reader_is_handed_on() {
    assert_eq!(fault(""), "EOF while parsing a value at line 1 column 0");
    assert_eq!(fault("{\"a\":}"), "expected value at line 1 column 6");
}

#[test]
fn a_name_that_occurs_twice_is_named() {
    let entry = || {
        Json::Object(vec![
            ("cfun".to_string(), Json::Text("c".to_string())),
            ("inputs".to_string(), Json::List(vec![])),
            ("outputs".to_string(), Json::List(vec![])),
        ])
    };
    let doc = Json::Object(vec![
        ("backend".to_string(), Json::Text("c".to_string())),
        ("version".to_string(), Json::Text("1".to_string())),
        ("entry_points".to_string(), Json::Object(vec![("g".to_string(), entry()), ("f".to_string(), entry()), ("g".to_string(), entry())])),
        ("types".to_string(), Json::Object(vec![])),
    ]);
    match Manifest::from_json(&doc) {
        Err(Error::ManifestParse(detail)) => assert_eq!(detail, "a name occurs twice: g"),
        other => panic!("{:?}", other),
    }
}

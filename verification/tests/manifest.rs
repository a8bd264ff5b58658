use futhark_bindgen::manifest::{
    ArrayOps, ArrayType, Composite, EntryPoint, OpaqueOps, OpaqueType, Output, Param, Projection,
    TypeDecl,
};
use futhark_bindgen::plan::{name_argument, HostType, Passing, Wrapper};
use futhark_bindgen::primitive::Primitive;
use futhark_bindgen::{Backend, Error, Manifest};

fn s(x: &str) -> String {
    x.to_string()
}

fn array(elem: &str, rank: u64) -> TypeDecl {
    let tag = format!("{}_{}d", elem, rank);
    TypeDecl::Array(ArrayType {
        elemtype: s(elem),
        rank,
        ops: ArrayOps {
            new: format!("futhark_new_{}", tag),
            free: format!("futhark_free_{}", tag),
            shape: format!("futhark_shape_{}", tag),
            values: format!("futhark_values_{}", tag),
            values_raw: None,
        },
    })
}

fn opaque(name: &str, projections: Vec<Projection>) -> TypeDecl {
    TypeDecl::Opaque(OpaqueType {
        ops: OpaqueOps {
            free: format!("futhark_free_opaque_{}", name),
            store: format!("futhark_store_opaque_{}", name),
            restore: format!("futhark_restore_opaque_{}", name),
        },
        projections,
        composite: Composite::Plain,
    })
}

fn entry(inputs: &[(&str, bool)], outputs: &[&str]) -> EntryPoint {
    EntryPoint {
        cfun: s("futhark_entry"),
        inputs: inputs.iter().map(|(t, u)| Param { ty: s(t), unique: *u }).collect(),
        outputs: outputs.iter().map(|t| Output { ty: s(t) }).collect(),
        tuning_params: None,
    }
}

fn names<T>(table: &Vec<(String, T)>) -> Vec<&str> {
    table.iter().map(|(k, _)| k.as_str()).collect()
}

#[test]
fn names_are_kept_in_ascending_order() {
    let mut m = Manifest::new(Backend::C, s("1"));
    for name in ["sum", "add", "zip", "mul", "ab", "a"] {
        assert!(m.add_entry_point(s(name), entry(&[], &[])));
    }
    assert_eq!(names(m.entry_points()), vec!["a", "ab", "add", "mul", "sum", "zip"]);
    for name in ["[]f64", "Pair", "[][]i32"] {
        assert!(m.add_type(s(name), array("f64", 1)));
    }
    assert_eq!(names(m.types()), vec!["Pair", "[][]i32", "[]f64"]);
}

#[test]
fn a_name_is_taken_once() {
    let mut m = Manifest::new(Backend::C, s("1"));
    assert!(m.add_entry_point(s("f"), entry(&[("i32", false)], &[])));
    assert!(!m.add_entry_point(s("f"), entry(&[], &[])));
    assert_eq!(m.entry_points().len(), 1);
    assert_eq!(m.entry_point("f").unwrap().inputs.len(), 1);
    assert!(m.entry_point("g").is_none());
    assert!(m.add_type(s("t"), array("i8", 1)));
    assert!(!m.add_type(s("t"), array("i16", 2)));
    match m.type_decl("t") {
        Some(TypeDecl::Array(a)) => assert_eq!(a.elemtype, "i8"),
        other => panic!("{:?}", other),
    }
    assert!(m.type_decl("u").is_none());
}

#[test]
fn type_references_resolve() {
    let mut m = Manifest::new(Backend::C, s("1"));
    assert!(m.add_type(s("[]f64"), array("f64", 1)));
    assert!(m.add_type(s("Pair"), opaque("Pair", vec![])));
    for name in ["i8", "i16", "i32", "i64", "u8", "u16", "u32", "u64", "f16", "f32", "f64", "bool"] {
        assert!(m.resolves(name));
    }
    assert!(m.resolves("[]f64"));
    assert!(m.resolves("Pair"));
    assert!(!m.resolves("[]f32"));
    assert!(!m.resolves("pair"));
    assert!(!m.resolves(""));
}

#[test]
fn valid_manifest() {
    let mut m = Manifest::new(Backend::C, s("1"));
    assert!(m.is_valid());
    assert!(m.add_type(s("[]f64"), array("f64", 1)));
    assert!(m.add_type(
        s("Pair"),
        opaque(
            "Pair",
            vec![
                Projection { name: s("fst"), project: s("p_fst"), ty: s("i32") },
                Projection { name: s("snd"), project: s("p_snd"), ty: s("[]f64") },
            ]
        )
    ));
    assert!(m.add_entry_point(s("sum"), entry(&[("[]f64", false), ("Pair", true)], &["f64"])));
    assert!(m.is_valid());
    assert!(m.validate().is_ok());
    assert!(m.entry_point_ok(0));
    assert!(m.type_ok(0));
    assert!(m.type_ok(1));
}

fn refused(what: &str, m: &Manifest) {
    assert!(!m.is_valid(), "{}", what);
    match m.validate() {
        Err(Error::ManifestParse(detail)) => {
            assert_eq!(detail, "a name or a type reference breaks the schema")
        }
        other => panic!("{}: {:?}", what, other),
    }
}

#[test]
fn invalid_references() {
    let mut m = Manifest::new(Backend::C, s("1"));
    assert!(m.add_entry_point(s("f"), entry(&[("[]f32", false)], &[])));
    refused("input", &m);
    let mut m = Manifest::new(Backend::C, s("1"));
    assert!(m.add_entry_point(s("f"), entry(&[], &["Q"])));
    refused("output", &m);
    let mut m = Manifest::new(Backend::C, s("1"));
    let p = Projection { name: s("x"), project: s("p"), ty: s("Q") };
    assert!(m.add_type(s("P"), opaque("P", vec![p])));
    refused("projection type", &m);
}

#[test]
fn invalid_names() {
    let mut m = Manifest::new(Backend::C, s("1"));
    assert!(m.add_entry_point(s("f-g"), entry(&[], &[])));
    refused("entry name", &m);
    let mut m = Manifest::new(Backend::C, s("1"));
    assert!(m.add_type(s("a pair"), opaque("t", vec![])));
    refused("opaque name", &m);
}

#[test]
fn projection_names_become_identifiers() {
    let mut m = Manifest::new(Backend::C, s("1"));
    let p = Projection { name: s("0"), project: s("p0"), ty: s("i32") };
    let q = Projection { name: s("re-al"), project: s("p1"), ty: s("f32") };
    let r = Projection { name: s("fst"), project: s("p2"), ty: s("f32") };
    assert!(m.add_type(s("P"), opaque("P", vec![p, q, r])));
    assert!(m.is_valid());
    match m.wrapper(0) {
        Wrapper::Opaque(o) => {
            let names: Vec<&str> = o.accessors.iter().map(|a| a.name.as_str()).collect();
            assert_eq!(names, vec!["field_0", "field_re_al", "fst"]);
        }
        other => panic!("{:?}", other),
    }
}

#[test]
fn invalid_arrays() {
    let mut m = Manifest::new(Backend::C, s("1"));
    assert!(m.add_type(s("[]f64"), array("f64", 0)));
    refused("rank", &m);
    let mut m = Manifest::new(Backend::C, s("1"));
    assert!(m.add_type(s("[]x"), array("Pair", 1)));
    refused("element", &m);
}

#[test]
fn host_types() {
    let mut m = Manifest::new(Backend::C, s("1"));
    assert!(m.add_type(s("[][]u8"), array("u8", 2)));
    assert!(m.add_type(s("Pair"), opaque("Pair", vec![])));
    assert!(m.add_type(s("bad"), array("Pair", 1)));
    match m.host_type("f32") {
        Some(HostType::Scalar(Primitive::F32)) => {}
        other => panic!("{:?}", other),
    }
    match m.host_type("[][]u8") {
        Some(HostType::Array { elem: Primitive::U8, rank: 2 }) => {}
        other => panic!("{:?}", other),
    }
    match m.host_type("Pair") {
        Some(HostType::Opaque { name }) => assert_eq!(name, "Pair"),
        other => panic!("{:?}", other),
    }
    assert!(m.host_type("bad").is_none());
    assert!(m.host_type("nothing").is_none());
}

#[test]
fn unique_inputs_are_consumed() {
    let mut m = Manifest::new(Backend::Multicore, s("1"));
    assert!(m.add_type(s("[]i32"), array("i32", 1)));
    assert!(m.add_entry_point(
        s("f"),
        entry(
            &[("[]i32", true), ("[]i32", false), ("i32", false), ("i32", true), ("[]i32", true)],
            &["[]i32", "bool"]
        )
    ));
    let method = m.method(0);
    assert_eq!(method.name, "f");
    assert_eq!(method.cfun, "futhark_entry");
    assert!(method.synchronise);
    let passing: Vec<Passing> = method.arguments.iter().map(|a| a.passing).collect();
    assert_eq!(
        passing,
        vec![Passing::Consumed, Passing::Borrowed, Passing::Copied, Passing::Consumed, Passing::Consumed]
    );
    let consumed = passing.iter().filter(|p| **p == Passing::Consumed).count();
    let unique = m.entry_point("f").unwrap().inputs.iter().filter(|p| p.unique).count();
    assert_eq!(consumed, unique);
    let argument_names: Vec<&str> = method.arguments.iter().map(|a| a.name.as_str()).collect();
    assert_eq!(argument_names, vec!["a", "b", "c", "d", "e"]);
    assert_eq!(method.results.len(), 2);
}

#[test]
fn argument_names() {
    assert_eq!(name_argument(0), "a");
    assert_eq!(name_argument(25), "z");
    assert_eq!(name_argument(26), "a1");
    assert_eq!(name_argument(27), "b1");
    assert_eq!(name_argument(51), "z1");
    assert_eq!(name_argument(52), "a2");
    assert_eq!(name_argument(26 * 12 + 3), "d12");
}

#[test]
fn bindings_cover_the_manifest() {
    let mut m = Manifest::new(Backend::C, s("1"));
    assert!(m.add_type(s("[][][]f32"), array("f32", 3)));
    assert!(m.add_type(
        s("Pair"),
        opaque("Pair", vec![Projection { name: s("fst"), project: s("p_fst"), ty: s("[][][]f32") }])
    ));
    assert!(m.add_entry_point(s("g"), entry(&[], &[])));
    assert!(m.add_entry_point(s("f"), entry(&[("Pair", false)], &["[][][]f32"])));
    let b = m.bindings();
    assert_eq!(b.wrappers.len(), 2);
    assert_eq!(b.methods.len(), 2);
    assert_eq!(b.methods[0].name, "f");
    assert_eq!(b.methods[1].name, "g");
    assert!(!b.methods[0].synchronise);
    match &b.wrappers[0] {
        Wrapper::Opaque(o) => {
            assert_eq!(o.name, "Pair");
            assert_eq!(o.accessors.len(), 1);
            assert_eq!(o.accessors[0].name, "fst");
            match &o.accessors[0].ty {
                HostType::Array { elem: Primitive::F32, rank: 3 } => {}
                other => panic!("{:?}", other),
            }
        }
        other => panic!("{:?}", other),
    }
    match &b.wrappers[1] {
        Wrapper::Array(a) => {
            assert_eq!(a.rank, 3);
            assert_eq!(a.elem, Primitive::F32);
            assert_eq!(a.shape, "futhark_shape_f32_3d");
        }
        other => panic!("{:?}", other),
    }
}

#[test]
fn primitive_names() {
    let all = [
        (Primitive::I8, "i8", "I8"),
        (Primitive::I16, "i16", "I16"),
        (Primitive::I32, "i32", "I32"),
        (Primitive::I64, "i64", "I64"),
        (Primitive::U8, "u8", "U8"),
        (Primitive::U16, "u16", "U16"),
        (Primitive::U32, "u32", "U32"),
        (Primitive::U64, "u64", "U64"),
        (Primitive::F16, "f16", "F16"),
        (Primitive::F32, "f32", "F32"),
        (Primitive::F64, "f64", "F64"),
        (Primitive::Bool, "bool", "Bool"),
    ];
    for (p, name, tag) in all {
        assert_eq!(p.to_str(), name);
        assert_eq!(p.wrapper_tag(), tag);
        assert_eq!(Primitive::from_name(name), Some(p));
    }
    assert_eq!(Primitive::from_name("f128"), None);
    assert_eq!(Primitive::from_name("I32"), None);
    assert_eq!(Primitive::F16.rust_type(), "half::f16");
    assert_eq!(Primitive::U32.rust_type(), "u32");
    assert_eq!(Primitive::F64.ocaml_type(), "float");
    assert_eq!(Primitive::F64.ctypes_type(), "double");
    assert_eq!(Primitive::I64.ocaml_type(), "int64");
    assert_eq!(Primitive::U8.ctypes_type(), "uint8_t");
}

#[test]
fn a_clone_is_the_same_manifest() {
    let mut m = Manifest::new(Backend::OpenCL, s("2"));
    assert!(m.add_type(s("[]f64"), array("f64", 1)));
    let p = Projection { name: s("fst"), project: s("p_fst"), ty: s("[]f64") };
    assert!(m.add_type(s("Pair"), opaque("Pair", vec![p])));
    let mut e = entry(&[("[]f64", true), ("i32", false)], &["Pair"]);
    e.tuning_params = Some(vec![s("tile")]);
    assert!(m.add_entry_point(s("f"), e));
    let c = m.clone();
    assert_eq!(format!("{:?}", c), format!("{:?}", m));
    assert_eq!(c.is_valid(), m.is_valid());
    let mut d = c.clone();
    assert!(d.add_entry_point(s("g"), entry(&[], &[])));
    assert_eq!(d.entry_points().len(), 2);
    assert_eq!(c.entry_points().len(), 1);
    assert_eq!(m.entry_points().len(), 1);
}

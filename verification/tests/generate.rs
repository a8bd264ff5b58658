use futhark_bindgen::ocaml::{ocaml_shape_type, ocaml_type};
use futhark_bindgen::plan::HostType;
use futhark_bindgen::primitive::Primitive;
use futhark_bindgen::rust::{rust_shape_type, rust_signature, rust_type};
use futhark_bindgen::{Config, Error, Generate, Generator, Library, Manifest, OCaml, Rust};

fn library(text: &str) -> Library {
    Library {
        manifest: Manifest::parse(text.as_bytes()).unwrap(),
        c_file: "out/prog.c".to_string(),
        h_file: "out/prog.h".to_string(),
        src: "prog.fut".to_string(),
    }
}

fn manifest(backend: &str, entry_points: &str, types: &str) -> String {
    format!(
        r#"{{"backend":"{}","version":"1","entry_points":{{{}}},"types":{{{}}}}}"#,
        backend, entry_points, types
    )
}

fn array(name: &str, elem: &str, rank: u64) -> String {
    format!(
        r#""{n}":{{"kind":"array","elemtype":"{e}","rank":{r},"ops":{{"new":"futhark_new_{e}_{r}d","free":"futhark_free_{e}_{r}d","shape":"futhark_shape_{e}_{r}d","values":"futhark_values_{e}_{r}d"}}}}"#,
        n = name,
        e = elem,
        r = rank
    )
}

fn rust(text: &str) -> String {
    let config = Config::new("out/bindings.rs").unwrap();
    Rust.generate(&library(text), &config).unwrap()
}

fn ocaml(text: &str) -> String {
    let config = Config::new("out/bindings.ml").unwrap();
    OCaml.generate(&library(text), &config).unwrap()
}

const ADD: &str = r#""add":{"cfun":"futhark_entry_add","inputs":[{"type":"i32"},{"type":"i32"}],"outputs":[{"type":"i32"}]}"#;

#[test]
fn minimal_scalar_entry_point() {
    let text = manifest("c", ADD, "");
    let m = Manifest::parse(text.as_bytes()).unwrap();
    assert_eq!(rust_signature(&m.method(0)), "pub fn add(&self, a: i32, b: i32) -> Result<i32, Error>");
    let out = rust(&text);
    assert!(out.contains("impl Context {\n    /// The entry point `add`.\n    pub fn add(&self, a: i32, b: i32) -> Result<i32, Error> {\n"));
    assert!(out.contains("    fn futhark_entry_add(context: *mut c_void, out0: *mut i32, a: i32, b: i32) -> c_int;\n"));
    assert!(out.contains("        let mut out0: i32 = Default::default();\n        let code = unsafe { futhark_entry_add(self.context, &mut out0, a, b) };\n        check(self.context, code)?;\n        Ok(out0)\n    }\n"));
    assert!(!out.contains("sync(self.context)?;"));
    assert!(out.starts_with("// Bindings of the module `bindings`.\n#![allow(dead_code, non_camel_case_types, non_snake_case)]\n\nuse std::ffi::{c_char, c_int, c_void, CStr};\n"));
    assert!(out.ends_with("        Ok(out0)\n    }\n}\n"));
}

#[test]
fn rank_1_f64_array_round_trip() {
    let text = manifest(
        "c",
        r#""sum":{"cfun":"futhark_entry_sum","inputs":[{"type":"[]f64"}],"outputs":[{"type":"f64"}]}"#,
        &array("[]f64", "f64", 1),
    );
    let out = rust(&text);
    assert!(out.contains("pub struct ArrayF64_1D {\n    context: *mut c_void,\n    raw: *mut c_void,\n}\n"));
    assert!(out.contains("impl ArrayF64_1D {\n    /// Copies `values` into a new array of the shape `shape`.\n    pub fn new(context: &Context, values: &[f64], shape: [i64; 1]) -> Result<Self, Error> {\n"));
    assert!(out.contains("let raw = unsafe { futhark_new_f64_1d(context.context, values.as_ptr(), shape[0]) };"));
    assert!(out.contains("    pub fn shape(&self) -> [i64; 1] {\n"));
    assert!(out.contains("    pub fn values(&self, dest: &mut [f64]) -> Result<(), Error> {\n"));
    assert!(out.contains("impl Drop for ArrayF64_1D {\n    fn drop(&mut self) {\n        unsafe {\n            futhark_free_f64_1d(self.context, self.raw);\n        }\n    }\n}\n"));
    assert!(out.contains("    fn futhark_new_f64_1d(context: *mut c_void, data: *const f64, dim0: i64) -> *mut c_void;\n"));
    assert!(out.contains("    pub fn sum(&self, a: &ArrayF64_1D) -> Result<f64, Error> {\n"));
    assert!(out.contains("futhark_entry_sum(self.context, &mut out0, a.raw)"));
}

#[test]
fn unique_input_consumed() {
    let text = manifest(
        "c",
        r#""inplace_inc":{"cfun":"futhark_entry_inplace_inc","inputs":[{"type":"[]i32","unique":true}],"outputs":[{"type":"[]i32"}]}"#,
        &array("[]i32", "i32", 1),
    );
    let out = rust(&text);
    assert!(out.contains("    pub fn inplace_inc(&self, a: ArrayI32_1D) -> Result<ArrayI32_1D, Error> {\n"));
    assert!(out.contains("        let mut out0: *mut c_void = std::ptr::null_mut();\n"));
    assert!(out.contains("        Ok(ArrayI32_1D { context: self.context, raw: out0 })\n"));
    let ml = ocaml(&text);
    assert!(ml.contains("(* The entry point `inplace_inc`. It consumes `a`: do not use that value again. *)\nlet inplace_inc (ctx : context) (a : array_i32_1d) : array_i32_1d =\n"));
}

#[test]
fn opaque_with_projections() {
    let text = manifest(
        "c",
        "",
        r#""Pair":{"kind":"opaque","ops":{"free":"free_pair","store":"store_pair","restore":"restore_pair"},"projections":[{"name":"fst","project":"project_fst","type":"i32"},{"name":"snd","project":"project_snd","type":"f64"}]}"#,
    );
    let out = rust(&text);
    assert!(out.contains("/// An opaque value. It owns the C object and frees it when it goes out of\n/// scope.\npub struct Pair {\n"));
    assert!(out.contains("    pub fn fst(&self) -> Result<i32, Error> {\n"));
    assert!(out.contains("    pub fn snd(&self) -> Result<f64, Error> {\n"));
    assert!(out.contains("    pub fn store(&self) -> Result<Vec<u8>, Error> {\n"));
    assert!(out.contains("    pub fn restore(context: &Context, bytes: &[u8]) -> Result<Self, Error> {\n"));
    assert!(out.contains("    fn project_snd(context: *mut c_void, out: *mut f64, value: *const c_void) -> c_int;\n"));
    assert!(out.contains("impl Drop for Pair {\n    fn drop(&mut self) {\n        unsafe {\n            free_pair(self.context, self.raw);\n"));
    let ml = ocaml(&text);
    assert!(ml.contains("type opaque_Pair = { opaque_Pair_context : context; opaque_Pair_raw : unit ptr }\n"));
    assert!(ml.contains("let opaque_Pair_fst (value : opaque_Pair) : int32 =\n"));
    assert!(ml.contains("let opaque_Pair_snd (value : opaque_Pair) : float =\n"));
    assert!(ml.contains("let opaque_Pair_store (value : opaque_Pair) : bytes =\n"));
    assert!(ml.contains("let opaque_Pair_restore (ctx : context) (stored : bytes) : opaque_Pair =\n"));
}

#[test]
fn projections_may_refer_forward_and_to_each_other() {
    let text = manifest(
        "c",
        "",
        r#""A":{"kind":"opaque","ops":{"free":"fa","store":"sa","restore":"ra"},"projections":[{"name":"b","project":"pab","type":"B"}]},
           "B":{"kind":"opaque","ops":{"free":"fb","store":"sb","restore":"rb"},"projections":[{"name":"a","project":"pba","type":"A"}]}"#,
    );
    let out = rust(&text);
    let declared_b = out.find("pub struct B {").unwrap();
    let used_b = out.find("    pub fn b(&self) -> Result<B, Error> {").unwrap();
    let declared_a = out.find("pub struct A {").unwrap();
    let used_a = out.find("    pub fn a(&self) -> Result<A, Error> {").unwrap();
    assert!(declared_a < declared_b);
    assert!(declared_b < used_b);
    assert!(used_b < used_a);
    assert!(out.contains("        Ok(B { context: self.context, raw: out })\n"));
    let ml = ocaml(&text);
    let wrap_b = ml.find("let opaque_B_wrap ").unwrap();
    let use_b = ml.find("let opaque_A_b (value : opaque_A) : opaque_B =").unwrap();
    assert!(ml.find("type opaque_B = ").unwrap() < ml.find("let opaque_A_wrap ").unwrap());
    assert!(wrap_b < use_b);
    assert!(ml.contains("  opaque_B_wrap value.opaque_A_context (!@ out)\n"));
}

#[test]
fn asynchronous_backends_synchronise_before_reading() {
    for backend in ["cuda", "opencl", "multicore"] {
        let out = rust(&manifest(backend, ADD, ""));
        assert!(out.contains("        check(self.context, code)?;\n        sync(self.context)?;\n        Ok(out0)\n"), "{}", backend);
        let ml = ocaml(&manifest(backend, ADD, ""));
        assert!(ml.contains("  check ctx (add_raw ctx.handle out0 a b);\n  sync ctx;\n  (!@ out0)\n"), "{}", backend);
    }
    let ml = ocaml(&manifest("c", ADD, ""));
    assert!(ml.contains("  check ctx (add_raw ctx.handle out0 a b);\n  (!@ out0)\n"));
}

#[test]
fn results_of_a_method() {
    let text = manifest(
        "c",
        r#""none":{"cfun":"c_none","inputs":[],"outputs":[]},
           "two":{"cfun":"c_two","inputs":[{"type":"bool"}],"outputs":[{"type":"u8"},{"type":"[][]f32"}]}"#,
        &array("[][]f32", "f32", 2),
    );
    let out = rust(&text);
    assert!(out.contains("    pub fn none(&self) -> Result<(), Error> {\n        let code = unsafe { c_none(self.context) };\n        check(self.context, code)?;\n        Ok(())\n    }\n"));
    assert!(out.contains("    pub fn two(&self, a: bool) -> Result<(u8, ArrayF32_2D), Error> {\n"));
    assert!(out.contains("        Ok((out0, ArrayF32_2D { context: self.context, raw: out1 }))\n"));
    assert!(out.contains("    fn c_two(context: *mut c_void, out0: *mut u8, out1: *mut *mut c_void, a: bool) -> c_int;\n"));
    let ml = ocaml(&text);
    assert!(ml.contains("let none (ctx : context) : unit =\n  check ctx (none_raw ctx.handle);\n  ()\n"));
    assert!(ml.contains("let two (ctx : context) (a : bool) : Unsigned.uint8 * array_f32_2d =\n"));
    assert!(ml.contains("let two_raw = foreign \"c_two\" (ptr void @-> ptr uint8_t @-> ptr (ptr void) @-> bool @-> returning int)\n"));
    assert!(ml.contains("  (!@ out0, array_f32_2d_wrap ctx (!@ out1))\n"));
}

#[test]
fn shape_has_one_extent_for_each_dimension() {
    assert_eq!(rust_shape_type(1), "[i64; 1]");
    assert_eq!(rust_shape_type(3), "[i64; 3]");
    assert_eq!(rust_shape_type(12), "[i64; 12]");
    assert_eq!(ocaml_shape_type(1), "int64");
    assert_eq!(ocaml_shape_type(3), "int64 * int64 * int64");
    for rank in 1..6u64 {
        let text = manifest("c", "", &array("t", "i16", rank));
        let out = rust(&text);
        assert!(out.contains(&format!("    pub fn shape(&self) -> [i64; {}] {{\n", rank)));
        assert!(out.contains(&format!("shape: [i64; {}]) -> Result<Self, Error>", rank)));
        let ml = ocaml(&text);
        let tuple = vec!["int64"; rank as usize].join(" * ");
        assert!(ml.contains(&format!("let array_i16_{r}d_shape (value : array_i16_{r}d) : {t} =\n", r = rank, t = tuple)));
    }
    let out = rust(&manifest("c", "", &array("t", "u64", 3)));
    assert!(out.contains("    fn futhark_new_u64_3d(context: *mut c_void, data: *const u64, dim0: i64, dim1: i64, dim2: i64) -> *mut c_void;\n"));
    assert!(out.contains("futhark_new_u64_3d(context.context, values.as_ptr(), shape[0], shape[1], shape[2])"));
    let ml = ocaml(&manifest("c", "", &array("t", "u64", 3)));
    assert!(ml.contains("  (!@ (extents +@ 0), !@ (extents +@ 1), !@ (extents +@ 2))\n"));
    assert!(ml.contains("  let (d0, d1, d2) = shape in\n"));
    assert!(ml.contains("[d0; d1; d2]"));
    assert!(ml.contains("(ptr void @-> ptr uint64_t @-> int64_t @-> int64_t @-> int64_t @-> returning (ptr void))"));
}

#[test]
fn names_of_host_types() {
    assert_eq!(rust_type(&HostType::Scalar(Primitive::F16)), "half::f16");
    assert_eq!(rust_type(&HostType::Array { elem: Primitive::F64, rank: 1 }), "ArrayF64_1D");
    assert_eq!(rust_type(&HostType::Array { elem: Primitive::Bool, rank: 10 }), "ArrayBool_10D");
    assert_eq!(rust_type(&HostType::Opaque { name: "Pair".to_string() }), "Pair");
    assert_eq!(ocaml_type(&HostType::Scalar(Primitive::U16)), "Unsigned.uint16");
    assert_eq!(ocaml_type(&HostType::Array { elem: Primitive::F64, rank: 1 }), "array_f64_1d");
    assert_eq!(ocaml_type(&HostType::Opaque { name: "Pair".to_string() }), "opaque_Pair");
}

#[test]
fn generation_is_deterministic() {
    let text = manifest(
        "opencl",
        r#""sum":{"cfun":"c_sum","inputs":[{"type":"[]f64"}],"outputs":[{"type":"f64"}]},"add":{"cfun":"c_add","inputs":[],"outputs":[]}"#,
        &array("[]f64", "f64", 1),
    );
    let shuffled = manifest(
        "opencl",
        r#""add":{"outputs":[],"inputs":[],"cfun":"c_add"},"sum":{"outputs":[{"type":"f64"}],"cfun":"c_sum","inputs":[{"unique":false,"type":"[]f64"}]}"#,
        &array("[]f64", "f64", 1),
    );
    for dest in ["a/bindings.rs", "a/bindings.ml"] {
        let config = Config::new(dest).unwrap();
        let generator = config.detect();
        let first = generator.generate(&library(&text), &config).unwrap();
        let second = generator.generate(&library(&text), &config).unwrap();
        let third = generator.generate(&library(&shuffled), &config).unwrap();
        assert_eq!(first, second);
        assert_eq!(first, third);
        assert!(first.find("`add`").unwrap() < first.find("`sum`").unwrap());
    }
}

#[test]
fn detect_picks_the_emitter() {
    let text = manifest("c", ADD, "");
    let rs = Config::new("x.rs").unwrap();
    assert_eq!(rs.detect(), Generator::Rust(Rust));
    assert_eq!(rs.detect().generate(&library(&text), &rs).unwrap(), rust(&text).replace("`bindings`", "`x`"));
    let ml = Config::new("x.ml").unwrap();
    assert_eq!(ml.detect().generate(&library(&text), &ml).unwrap(), ocaml(&text).replace("`bindings`", "`x`"));
}

#[test]
fn settings_shape_the_header() {
    let text = manifest("c", "", "");
    let config = Config::new("out/k.rs").unwrap().with_module_name("kernels").with_attributes(false);
    let out = Rust.generate(&library(&text), &config).unwrap();
    assert!(out.starts_with("// Bindings of the module `kernels`.\n\nuse std::ffi::"));
    assert!(out.ends_with("extern \"C\" {\n}\n\nimpl Context {}\n"));
    let config = Config::new("out/k.ml").unwrap();
    let ml = OCaml.generate(&library(&text), &config).unwrap();
    assert!(ml.starts_with("(* Bindings of the module `k`. *)\n[@@@warning \"-32\"]\n\nopen Ctypes\nopen Foreign\n"));
    let ml = OCaml.generate(&library(&text), &config.with_attributes(false)).unwrap();
    assert!(ml.starts_with("(* Bindings of the module `k`. *)\n\nopen Ctypes\n"));
}

#[test]
fn an_invalid_manifest_is_refused() {
    let text = manifest("c", r#""f":{"cfun":"c","inputs":[{"type":"[]f64"}],"outputs":[]}"#, "");
    let config = Config::new("x.rs").unwrap();
    match Rust.generate(&library(&text), &config) {
        Err(Error::ManifestParse(_)) => {}
        other => panic!("{:?}", other),
    }
    match OCaml.generate(&library(&text), &config) {
        Err(Error::ManifestParse(_)) => {}
        other => panic!("{:?}", other),
    }
}

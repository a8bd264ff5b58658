use futhark_bindgen::{Action, Backend, Compiler, Error, Event, Manifest};

fn strings(xs: &[&str]) -> Vec<String> {
    xs.iter().map(|x| x.to_string()).collect()
}

#[test]
fn start_runs_the_upstream_compiler() {
    let c = Compiler::new(Backend::C, "src/prog.fut", "/work/demo/src/prog.fut");
    match c.compile(Event::Start) {
        Action::Run { program, arguments } => {
            assert_eq!(program, "futhark");
            assert_eq!(
                arguments,
                strings(&["c", "-o", "/work/demo/src/prog", "--lib", "src/prog.fut"])
            );
        }
        other => panic!("{:?}", other),
    }
}

#[test]
fn arguments_keep_their_order() {
    let c = Compiler::new(Backend::OpenCL, "k/mean.fut", "/work/k/mean.fut")
        .with_executable_name("futhark-nightly")
        .with_extra_args(strings(&["-w", "--safe"]))
        .with_output_dir("/tmp/out");
    assert_eq!(c.output_stem(), "/tmp/out/mean");
    assert_eq!(
        c.arguments(),
        strings(&["opencl", "-w", "--safe", "-o", "/tmp/out/mean", "--lib", "k/mean.fut"])
    );
    match c.compile(Event::Start) {
        Action::Run { program, arguments } => {
            assert_eq!(program, "futhark-nightly");
            assert_eq!(arguments, c.arguments());
        }
        other => panic!("{:?}", other),
    }
}

#[test]
fn default_output_directory_holds_the_resolved_source() {
    let c = Compiler::new(Backend::C, "prog.fut", "/home/me/demo/prog.fut");
    assert_eq!(c.output_stem(), "/home/me/demo/prog");
    match c.compile(Event::Start) {
        Action::Run { arguments, .. } => {
            assert_eq!(arguments, strings(&["c", "-o", "/home/me/demo/prog", "--lib", "prog.fut"]));
        }
        other => panic!("{:?}", other),
    }
    let c = Compiler::new(Backend::C, "../lib/prog.fut", "/home/me/lib/prog.fut");
    assert_eq!(c.output_stem(), "/home/me/lib/prog");
    let c = Compiler::new(Backend::C, "link.fut", "/data/real/kernel.fut");
    assert_eq!(c.output_stem(), "/data/real/link");
    assert_eq!(c.artefact("json"), "/data/real/link.json");
    let c = Compiler::new(Backend::C, "/prog.fut", "/prog.fut");
    assert_eq!(c.output_stem(), "/prog");
    let c = Compiler::new(Backend::C, "a/b/prog.fut", "/x");
    assert_eq!(c.output_stem(), "/prog");
}

#[test]
fn a_clone_is_the_same_compiler() {
    let c = Compiler::new(Backend::CUDA, "k/mean.fut", "/work/k/mean.fut")
        .with_executable_name("futhark-nightly")
        .with_extra_args(strings(&["-w"]));
    let d = c.clone();
    assert_eq!(d.arguments(), c.arguments());
    assert_eq!(d.output_stem(), "/work/k/mean");
    match (c.compile(Event::Start), d.compile(Event::Start)) {
        (Action::Run { program: p, arguments: a }, Action::Run { program: q, arguments: b }) => {
            assert_eq!(p, "futhark-nightly");
            assert_eq!(p, q);
            assert_eq!(a, b);
        }
        other => panic!("{:?}", other),
    }
}

#[test]
fn artefacts_append_their_extension() {
    let c = Compiler::new(Backend::C, "a/prog.v2.fut", "/w/a/prog.v2.fut").with_output_dir("out");
    assert_eq!(c.output_stem(), "out/prog.v2");
    assert_eq!(c.artefact("json"), "out/prog.v2.json");
    assert_eq!(c.artefact("c"), "out/prog.v2.c");
    assert_eq!(c.artefact("h"), "out/prog.v2.h");
}

#[test]
fn failed_run_is_compilation_failed() {
    let c = Compiler::new(Backend::C, "prog.fut", "/w/prog.fut");
    match c.compile(Event::Exited { success: false }) {
        Action::Fail(Error::CompilationFailed) => {}
        other => panic!("{:?}", other),
    }
    let p = Compiler::new(Backend::Python, "prog.fut", "/w/prog.fut");
    match p.compile(Event::Exited { success: false }) {
        Action::Fail(Error::CompilationFailed) => {}
        other => panic!("{:?}", other),
    }
}

#[test]
fn python_backend_produces_no_c_library() {
    for backend in [Backend::Python, Backend::PyOpenCL] {
        let c = Compiler::new(backend, "prog.fut", "/w/prog.fut");
        match c.compile(Event::Start) {
            Action::Run { arguments, .. } => assert_eq!(arguments[0], backend.to_str()),
            other => panic!("{:?}", other),
        }
        match c.compile(Event::Exited { success: true }) {
            Action::Done(None) => {}
            other => panic!("{:?}", other),
        }
        let text = br#"{"backend":"c","version":"1","entry_points":{},"types":{}}"#;
        match c.compile(Event::Loaded(text.to_vec())) {
            Action::Done(None) => {}
            other => panic!("{:?}", other),
        }
        match c.compile(Event::Loaded(b"no json".to_vec())) {
            Action::Done(None) => {}
            other => panic!("{:?}", other),
        }
        match c.finish(Manifest::new(backend, "1".to_string())) {
            Action::Done(None) => {}
            other => panic!("{:?}", other),
        }
    }
}

#[test]
fn c_backends_ask_for_the_manifest() {
    for backend in [Backend::C, Backend::CUDA, Backend::OpenCL, Backend::Multicore] {
        let c = Compiler::new(backend, "lib/prog.fut", "/w/lib/prog.fut").with_output_dir("target");
        match c.compile(Event::Exited { success: true }) {
            Action::Load { path } => assert_eq!(path, "target/prog.json"),
            other => panic!("{:?}", other),
        }
    }
}

#[test]
fn loaded_manifest_ends_with_the_library() {
    let c = Compiler::new(Backend::C, "lib/prog.fut", "/w/lib/prog.fut").with_output_dir("target");
    let text = br#"{"backend":"c","version":"0.25.1","entry_points":{},"types":{}}"#;
    match c.compile(Event::Loaded(text.to_vec())) {
        Action::Done(Some(library)) => {
            assert_eq!(library.c_file, "target/prog.c");
            assert_eq!(library.h_file, "target/prog.h");
            assert_eq!(library.src, "lib/prog.fut");
            assert_eq!(library.manifest.version(), "0.25.1");
            assert_eq!(library.manifest.backend(), Backend::C);
        }
        other => panic!("{:?}", other),
    }
}

#[test]
fn invalid_manifest_fails_the_step() {
    let c = Compiler::new(Backend::C, "prog.fut", "/w/prog.fut");
    let text = br#"{"backend":"c","version":"1","types":{},
        "entry_points":{"f":{"cfun":"futhark_entry_f","inputs":[{"type":"nowhere"}],"outputs":[]}}}"#;
    match c.compile(Event::Loaded(text.to_vec())) {
        Action::Fail(Error::ManifestParse(detail)) => {
            assert_eq!(detail, "a name or a type reference breaks the schema")
        }
        other => panic!("{:?}", other),
    }
    match c.finish(Manifest::parse(text).unwrap()) {
        Action::Fail(Error::ManifestParse(_)) => {}
        other => panic!("{:?}", other),
    }
    match c.finish(Manifest::new(Backend::C, "1".to_string())) {
        Action::Done(Some(library)) => assert_eq!(library.c_file, "/w/prog.c"),
        other => panic!("{:?}", other),
    }
}

#[test]
fn unreadable_manifest_fails_the_step() {
    let c = Compiler::new(Backend::C, "prog.fut", "/w/prog.fut");
    for text in ["", "{", "[]", r#"{"backend":"c"}"#] {
        match c.compile(Event::Loaded(text.as_bytes().to_vec())) {
            Action::Fail(Error::ManifestParse(_)) => {}
            other => panic!("{}: {:?}", text, other),
        }
    }
}

#[test]
fn failures_are_handed_on() {
    let c = Compiler::new(Backend::C, "prog.fut", "/w/prog.fut");
    match c.compile(Event::Failed(Error::Io("no such program".to_string()))) {
        Action::Fail(Error::Io(detail)) => assert_eq!(detail, "no such program"),
        other => panic!("{:?}", other),
    }
    match c.compile(Event::Failed(Error::ManifestParse("expected value".to_string()))) {
        Action::Fail(Error::ManifestParse(detail)) => assert_eq!(detail, "expected value"),
        other => panic!("{:?}", other),
    }
}

#[test]
fn error_messages() {
    assert_eq!(Error::CompilationFailed.message(), "compilation failed");
    assert_eq!(Error::Io("x".to_string()).message(), "I/O error: x");
    assert_eq!(Error::ManifestParse("y".to_string()).message(), "invalid manifest: y");
    assert_eq!(Error::InvalidOutputLanguage.message(), "invalid output language");
    assert_eq!(Error::Emit("z".to_string()).message(), "unable to write output: z");
}

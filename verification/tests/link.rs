use futhark_bindgen::{Backend, Library, Manifest};

fn library(backend: Backend) -> Library {
    Library {
        manifest: Manifest::new(backend, "1".to_string()),
        c_file: "out/prog.c".to_string(),
        h_file: "out/prog.h".to_string(),
        src: "prog.fut".to_string(),
    }
}

#[test]
fn cuda_backend_link_set() {
    let plan = library(Backend::CUDA).link("demo");
    assert_eq!(plan.archive, "futhark_generate_demo");
    assert_eq!(plan.source, "out/prog.c");
    assert_eq!(plan.flags, vec!["-Wno-unused-parameter".to_string()]);
    assert_eq!(
        plan.directives,
        vec![
            "cargo:rustc-link-lib=futhark_generate_demo".to_string(),
            "cargo:rustc-link-lib=cuda".to_string(),
            "cargo:rustc-link-lib=cudart".to_string(),
            "cargo:rustc-link-lib=nvrtc".to_string(),
            "cargo:rustc-link-lib=m".to_string(),
        ]
    );
}

#[test]
fn opencl_backend_link_set() {
    let plan = library(Backend::OpenCL).link("demo");
    assert_eq!(
        plan.directives,
        vec![
            "cargo:rustc-link-lib=futhark_generate_demo".to_string(),
            "cargo:rustc-link-lib=OpenCL".to_string(),
            "cargo:rustc-link-lib=m".to_string(),
        ]
    );
}

#[test]
fn c_backend_links_the_archive_alone() {
    for backend in [Backend::C, Backend::Multicore] {
        let plan = library(backend).link("p");
        assert_eq!(plan.directives, vec!["cargo:rustc-link-lib=futhark_generate_p".to_string()]);
    }
}

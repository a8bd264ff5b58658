use futhark_bindgen::Backend;

#[test]
fn backend_names() {
    assert_eq!(Backend::C.to_str(), "c");
    assert_eq!(Backend::CUDA.to_str(), "cuda");
    assert_eq!(Backend::OpenCL.to_str(), "opencl");
    assert_eq!(Backend::Multicore.to_str(), "multicore");
    assert_eq!(Backend::Python.to_str(), "python");
    assert_eq!(Backend::PyOpenCL.to_str(), "pyopencl");
}

#[test]
fn backend_libraries() {
    assert_eq!(Backend::CUDA.required_c_libs(), &["cuda", "cudart", "nvrtc", "m"]);
    assert_eq!(Backend::OpenCL.required_c_libs(), &["OpenCL", "m"]);
    assert!(Backend::C.required_c_libs().is_empty());
    assert!(Backend::Multicore.required_c_libs().is_empty());
    assert!(Backend::Python.required_c_libs().is_empty());
    assert!(Backend::PyOpenCL.required_c_libs().is_empty());
}

#[test]
fn backend_from_name_inverts_to_str() {
    let all = [
        Backend::C,
        Backend::CUDA,
        Backend::OpenCL,
        Backend::Multicore,
        Backend::Python,
        Backend::PyOpenCL,
    ];
    for b in all {
        assert_eq!(Backend::from_name(b.to_str()), Some(b));
    }
    assert_eq!(Backend::from_name("CUDA"), None);
    assert_eq!(Backend::from_name(""), None);
    assert_eq!(Backend::from_name("cud"), None);
}

#[test]
fn backend_kinds() {
    assert!(Backend::C.has_c_library());
    assert!(Backend::CUDA.has_c_library());
    assert!(Backend::OpenCL.has_c_library());
    assert!(Backend::Multicore.has_c_library());
    assert!(!Backend::Python.has_c_library());
    assert!(!Backend::PyOpenCL.has_c_library());
    assert!(!Backend::C.is_asynchronous());
    assert!(Backend::CUDA.is_asynchronous());
    assert!(Backend::OpenCL.is_asynchronous());
    assert!(Backend::Multicore.is_asynchronous());
    assert!(!Backend::Python.is_asynchronous());
    assert!(!Backend::PyOpenCL.is_asynchronous());
}

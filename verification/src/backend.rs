//! The code-generation modes of the upstream compiler.

use vstd::prelude::*;
use crate::text::str_eq;

verus! {

/// A code-generation mode of the upstream compiler.
#[derive(Debug, Clone, Copy, PartialEq, Eq, Structural)]
pub enum Backend {
    C,
    CUDA,
    OpenCL,
    Multicore,
    Python,
    PyOpenCL,
}

impl Backend {
    /// The name by which the upstream compiler and the manifest know the
    /// backend.
    pub open spec fn name(self) -> Seq<char> {
        match self {
            Backend::C => "c"@,
            Backend::CUDA => "cuda"@,
            Backend::OpenCL => "opencl"@,
            Backend::Multicore => "multicore"@,
            Backend::Python => "python"@,
            Backend::PyOpenCL => "pyopencl"@,
        }
    }

    /// The C libraries that a program built for the backend links against.
    pub open spec fn libs(self) -> Seq<Seq<char>> {
        match self {
            Backend::CUDA => seq!["cuda"@, "cudart"@, "nvrtc"@, "m"@],
            Backend::OpenCL => seq!["OpenCL"@, "m"@],
            _ => Seq::empty(),
        }
    }

    /// Whether the upstream compiler leaves a C library behind. The two
    /// Python backends yield a script that stands alone.
    pub open spec fn emits_c_library(self) -> bool {
        self != Backend::Python && self != Backend::PyOpenCL
    }

    /// Whether results of the backend may be read only after a
    /// synchronisation of the context.
    pub open spec fn asynchronous(self) -> bool {
        self == Backend::CUDA || self == Backend::OpenCL || self == Backend::Multicore
    }

    /// The backend's name on the upstream compiler's command line.
    pub fn to_str(&self) -> (r: &'static str)
        ensures
            r@ == self.name(),
    {
        match self {
            Backend::C => "c",
            Backend::CUDA => "cuda",
            Backend::OpenCL => "opencl",
            Backend::Multicore => "multicore",
            Backend::Python => "python",
            Backend::PyOpenCL => "pyopencl",
        }
    }

    /// The C libraries to link, in the order in which they are handed to the
    /// linker.
    pub fn required_c_libs(&self) -> (r: &'static [&'static str])
        ensures
            r@.len() == self.libs().len(),
            forall|i: int| 0 <= i < r@.len() ==> (#[trigger] r@[i])@ == self.libs()[i],
    {
        match self {
            Backend::CUDA => &["cuda", "cudart", "nvrtc", "m"],
            Backend::OpenCL => &["OpenCL", "m"],
            _ => &[],
        }
    }

    /// Finds the backend that goes by `name`.
    pub fn from_name(name: &str) -> (r: Option<Backend>)
        ensures
            r == backend_named(name@),
    {
        if str_eq(name, "c") {
            Some(Backend::C)
        } else if str_eq(name, "cuda") {
            Some(Backend::CUDA)
        } else if str_eq(name, "opencl") {
            Some(Backend::OpenCL)
        } else if str_eq(name, "multicore") {
            Some(Backend::Multicore)
        } else if str_eq(name, "python") {
            Some(Backend::Python)
        } else if str_eq(name, "pyopencl") {
            Some(Backend::PyOpenCL)
        } else {
            None
        }
    }

    /// Decides `emits_c_library`.
    pub fn has_c_library(&self) -> (r: bool)
        ensures
            r == self.emits_c_library(),
    {
        match self {
            Backend::Python | Backend::PyOpenCL => false,
            _ => true,
        }
    }

    /// Decides `asynchronous`.
    pub fn is_asynchronous(&self) -> (r: bool)
        ensures
            r == self.asynchronous(),
    {
        match self {
            Backend::CUDA | Backend::OpenCL | Backend::Multicore => true,
            _ => false,
        }
    }
}

/// The backend that goes by `name`, if there is one.
pub open spec fn backend_named(name: Seq<char>) -> Option<Backend> {
    if name == "c"@ {
        Some(Backend::C)
    } else if name == "cuda"@ {
        Some(Backend::CUDA)
    } else if name == "opencl"@ {
        Some(Backend::OpenCL)
    } else if name == "multicore"@ {
        Some(Backend::Multicore)
    } else if name == "python"@ {
        Some(Backend::Python)
    } else if name == "pyopencl"@ {
        Some(Backend::PyOpenCL)
    } else {
        None
    }
}

/// `backend_named` finds the one backend that goes by a name.
pub proof fn lemma_backend_named(name: Seq<char>)
    ensures
        forall|b: Backend| #[trigger] b.name() == name ==> backend_named(name) == Some(b),
        backend_named(name) is Some ==> backend_named(name)->0.name() == name,
{
    assert forall|b: Backend| #[trigger] b.name() == name implies backend_named(name) == Some(
        b,
    ) by {
        if backend_named(name) is Some {
            lemma_backend_names_distinct(b, backend_named(name)->0);
        }
    }
}

/// No two backends go by the same name.
pub proof fn lemma_backend_names_distinct(a: Backend, b: Backend)
    requires
        a.name() == b.name(),
    ensures
        a == b,
{
    reveal_strlit("c");
    reveal_strlit("cuda");
    reveal_strlit("opencl");
    reveal_strlit("multicore");
    reveal_strlit("python");
    reveal_strlit("pyopencl");
    let x = a.name();
    let y = b.name();
    assert(x.len() == y.len());
    assert(x[0] == y[0]);
}

} // verus!

//! What the surrounding build has to do with the C source of a library:
//! how to compile it, and what to tell the build system to link.

use vstd::prelude::*;
use vstd::string::*;
use crate::compiler::{Library, LibraryModel};

verus! {

/// The steps that link a library into the program being built.
#[derive(Debug)]
pub struct LinkPlan {
    /// The name of the static archive that the C source is compiled into.
    pub archive: String,
    /// The C source to compile.
    pub source: String,
    /// The flags to hand to the C compiler.
    pub flags: Vec<String>,
    /// The lines to print for the build system, in this order.
    pub directives: Vec<String>,
}

/// A `LinkPlan` as plain values.
pub struct LinkPlanModel {
    pub archive: Seq<char>,
    pub source: Seq<char>,
    pub flags: Seq<Seq<char>>,
    pub directives: Seq<Seq<char>>,
}

impl View for LinkPlan {
    type V = LinkPlanModel;

    open spec fn view(&self) -> LinkPlanModel {
        LinkPlanModel {
            archive: self.archive@,
            source: self.source@,
            flags: self.flags.deep_view(),
            directives: self.directives.deep_view(),
        }
    }
}

/// The line that tells the build system to link the library `lib`.
pub open spec fn link_directive(lib: Seq<char>) -> Seq<char> {
    "cargo:rustc-link-lib="@ + lib
}

/// The name of the archive made for the project `project`.
pub open spec fn archive_name(project: Seq<char>) -> Seq<char> {
    "futhark_generate_"@ + project
}

impl LibraryModel {
    /// The plan for the project `project`: the C source is compiled without
    /// the warning on unused parameters, and the build system is told to
    /// link the archive first and then each C library that the backend
    /// requires.
    pub open spec fn link(self, project: Seq<char>) -> LinkPlanModel {
        let libs = self.manifest.backend.libs();
        LinkPlanModel {
            archive: archive_name(project),
            source: self.c_file,
            flags: seq!["-Wno-unused-parameter"@],
            directives: seq![link_directive(archive_name(project))] + Seq::new(
                libs.len(),
                |i: int| link_directive(libs[i]),
            ),
        }
    }
}

impl Library {
    /// Plans the compilation of the C source and the linking of the archive
    /// and of the backend's C libraries, for the project `project`.
    pub fn link(&self, project: &str) -> (r: LinkPlan)
        ensures
            r@ == self@.link(project@),
    {
        let archive = String::from_str("futhark_generate_").concat(project);
        let mut flags: Vec<String> = Vec::new();
        flags.push(String::from_str("-Wno-unused-parameter"));
        assert(flags.deep_view() =~= seq!["-Wno-unused-parameter"@]);
        let mut directives: Vec<String> = Vec::new();
        directives.push(String::from_str("cargo:rustc-link-lib=").concat(archive.as_str()));
        let backend = self.manifest.backend();
        let libs = backend.required_c_libs();
        let ghost names = backend.libs();
        let mut i: usize = 0;
        while i < libs.len()
            invariant
                i <= libs.len(),
                libs@.len() == names.len(),
                forall|k: int| 0 <= k < libs@.len() ==> (#[trigger] libs@[k])@ == names[k],
                directives.deep_view() == seq![link_directive(archive@)] + Seq::new(
                    i as nat,
                    |k: int| link_directive(names[k]),
                ),
            decreases libs.len() - i,
        {
            let ghost before = directives.deep_view();
            let line = String::from_str("cargo:rustc-link-lib=").concat(libs[i]);
            directives.push(line);
            i = i + 1;
            assert(directives.deep_view() =~= before.push(link_directive(names[i - 1])));
            assert(directives.deep_view() =~= seq![link_directive(archive@)] + Seq::new(
                i as nat,
                |k: int| link_directive(names[k]),
            ));
        }
        LinkPlan { archive, source: self.c_file.clone(), flags, directives }
    }
}

} // verus!

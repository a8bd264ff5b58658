//! The driver of the upstream compiler: what to run, what to read afterwards
//! and what the run has produced. The driver decides; its caller runs the
//! program and reads the files.

use vstd::prelude::*;
use vstd::string::*;
use crate::backend::Backend;
use crate::error::{Error, ErrorModel};
use crate::json::parsed_document;
use crate::manifest::{breach, Manifest, ManifestModel};
use crate::schema::manifest_read;
use crate::text::{file_name_of, file_stem, join, join_of, parent, parent_of, stem_of};

verus! {

/// How the upstream compiler is to be run on one source file.
#[derive(Debug)]
pub struct Compiler {
    exe: String,
    backend: Backend,
    src: String,
    extra_args: Vec<String>,
    output_dir: String,
}

/// A `Compiler` as plain values.
pub struct CompilerModel {
    pub exe: Seq<char>,
    pub backend: Backend,
    pub src: Seq<char>,
    pub extra_args: Seq<Seq<char>>,
    pub output_dir: Seq<char>,
}

impl CompilerModel {
    /// The path, without extension, under which the upstream compiler
    /// writes: the stem of the source file below the output directory.
    pub open spec fn output_stem(self) -> Seq<char> {
        join_of(self.output_dir, stem_of(file_name_of(self.src)))
    }

    /// The arguments of the upstream compiler: the backend, the extra
    /// arguments, the place to write to, and the source as a library.
    pub open spec fn arguments(self) -> Seq<Seq<char>> {
        seq![self.backend.name()] + self.extra_args + seq![
            "-o"@,
            self.output_stem(),
            "--lib"@,
            self.src,
        ]
    }

    /// The file that the upstream compiler writes with the extension `ext`:
    /// the extension is put behind the stem, also where the stem itself
    /// holds a `.`, and takes the place of nothing.
    pub open spec fn artefact(self, ext: Seq<char>) -> Seq<char> {
        self.output_stem() + "."@ + ext
    }

    /// Whether `r` is the end of the build step for the manifest `m`: no
    /// library where the backend yields none, whatever was read; else the
    /// library where `m` keeps the rules of its schema, and the failure
    /// where it breaks them.
    pub open spec fn finished(self, m: ManifestModel, r: Action) -> bool {
        if !self.backend.emits_c_library() {
            r matches Action::Done(None)
        } else if m.valid() {
            r matches Action::Done(Some(library)) && library@ == (LibraryModel {
                manifest: m,
                c_file: self.artefact("c"@),
                h_file: self.artefact("h"@),
                src: self.src,
            })
        } else {
            r matches Action::Fail(e) && e@ == breach()
        }
    }
}

impl View for Compiler {
    type V = CompilerModel;

    closed spec fn view(&self) -> CompilerModel {
        CompilerModel {
            exe: self.exe@,
            backend: self.backend,
            src: self.src@,
            extra_args: self.extra_args.deep_view(),
            output_dir: self.output_dir@,
        }
    }
}

/// What a successful run of the upstream compiler leaves behind: the
/// manifest and the places of the C source, the C header and the source
/// file.
#[derive(Debug)]
pub struct Library {
    pub manifest: Manifest,
    pub c_file: String,
    pub h_file: String,
    pub src: String,
}

/// A `Library` as plain values.
pub struct LibraryModel {
    pub manifest: ManifestModel,
    pub c_file: Seq<char>,
    pub h_file: Seq<char>,
    pub src: Seq<char>,
}

impl View for Library {
    type V = LibraryModel;

    open spec fn view(&self) -> LibraryModel {
        LibraryModel {
            manifest: self.manifest@,
            c_file: self.c_file@,
            h_file: self.h_file@,
            src: self.src@,
        }
    }
}

impl Clone for Compiler {
    fn clone(&self) -> (r: Self)
        ensures
            r@ == self@,
    {
        let extra_args = self.extra_args.clone();
        assert(extra_args.deep_view() =~= self.extra_args.deep_view());
        Compiler {
            exe: self.exe.clone(),
            backend: self.backend,
            src: self.src.clone(),
            extra_args,
            output_dir: self.output_dir.clone(),
        }
    }
}

impl Clone for Library {
    fn clone(&self) -> (r: Self)
        ensures
            r@ == self@,
    {
        Library {
            manifest: self.manifest.clone(),
            c_file: self.c_file.clone(),
            h_file: self.h_file.clone(),
            src: self.src.clone(),
        }
    }
}

impl DeepView for Library {
    type V = LibraryModel;

    open spec fn deep_view(&self) -> LibraryModel {
        self@
    }
}

/// What the caller reports to the driver.
#[derive(Debug)]
pub enum Event {
    /// Nothing has happened yet.
    Start,
    /// The upstream compiler has run to its end.
    Exited { success: bool },
    /// The file of the manifest has been read: these are its bytes.
    Loaded(Vec<u8>),
    /// The program could not be run, or the file of the manifest could not
    /// be read.
    Failed(Error),
}

/// What the driver asks of its caller, or the end that it has reached.
#[derive(Debug)]
pub enum Action {
    /// Run `program` with `arguments`, wait for it, and report `Exited`.
    Run { program: String, arguments: Vec<String> },
    /// Read the file at `path` and report `Loaded` with its bytes.
    Load { path: String },
    /// The build step is over: with a library, or without one where the
    /// backend yields none.
    Done(Option<Library>),
    /// The build step has failed.
    Fail(Error),
}

impl Compiler {
    /// The upstream compiler under its usual name, for `backend` and the
    /// source file `src`, without extra arguments, writing beside the source
    /// file. `resolved` is the absolute path at which the source file really
    /// lies, as the file system gives it for `src`: the directory that holds
    /// it is where the upstream compiler writes. `src` itself is handed to
    /// the upstream compiler as it was given. A path that is not absolute,
    /// and the root, which no directory holds, are no resolved path of a
    /// file.
    pub fn new(backend: Backend, src: &str, resolved: &str) -> (r: Compiler)
        requires
            resolved@.len() > 1,
            resolved@[0] == '/',
        ensures
            r@ == (CompilerModel {
                exe: "futhark"@,
                backend,
                src: src@,
                extra_args: Seq::empty(),
                output_dir: parent_of(resolved@),
            }),
    {
        let r = Compiler {
            exe: String::from_str("futhark"),
            backend,
            src: String::from_str(src),
            extra_args: Vec::new(),
            output_dir: String::from_str(parent(resolved)),
        };
        assert(r.extra_args.deep_view() =~= Seq::empty());
        r
    }

    /// Names the program to run in place of the usual one.
    pub fn with_executable_name(self, name: &str) -> (r: Compiler)
        ensures
            r@ == (CompilerModel { exe: name@, ..self@ }),
    {
        Compiler {
            exe: String::from_str(name),
            backend: self.backend,
            src: self.src,
            extra_args: self.extra_args,
            output_dir: self.output_dir,
        }
    }

    /// Sets the arguments that go between the backend and `-o`.
    pub fn with_extra_args(self, args: Vec<String>) -> (r: Compiler)
        ensures
            r@ == (CompilerModel { extra_args: args.deep_view(), ..self@ }),
    {
        Compiler {
            exe: self.exe,
            backend: self.backend,
            src: self.src,
            extra_args: args,
            output_dir: self.output_dir,
        }
    }

    /// Sets the directory that the upstream compiler writes to.
    pub fn with_output_dir(self, dir: &str) -> (r: Compiler)
        ensures
            r@ == (CompilerModel { output_dir: dir@, ..self@ }),
    {
        Compiler {
            exe: self.exe,
            backend: self.backend,
            src: self.src,
            extra_args: self.extra_args,
            output_dir: String::from_str(dir),
        }
    }

    /// The path, without extension, under which the upstream compiler
    /// writes.
    pub fn output_stem(&self) -> (r: String)
        ensures
            r@ == self@.output_stem(),
    {
        join(self.output_dir.as_str(), file_stem(self.src.as_str()))
    }

    /// The file that the upstream compiler writes with the extension `ext`.
    pub fn artefact(&self, ext: &str) -> (r: String)
        ensures
            r@ == self@.artefact(ext@),
    {
        let mut out = self.output_stem();
        out.append(".");
        out.append(ext);
        out
    }

    /// The arguments to run the upstream compiler with.
    pub fn arguments(&self) -> (r: Vec<String>)
        ensures
            r.deep_view() == self@.arguments(),
    {
        let mut out: Vec<String> = Vec::new();
        out.push(String::from_str(self.backend.to_str()));
        let mut i: usize = 0;
        while i < self.extra_args.len()
            invariant
                i <= self.extra_args.len(),
                out.deep_view() == seq![self.backend.name()] + self.extra_args.deep_view().subrange(
                    0,
                    i as int,
                ),
            decreases self.extra_args.len() - i,
        {
            let ghost before = out.deep_view();
            out.push(self.extra_args[i].clone());
            i = i + 1;
            assert(out.deep_view() =~= before.push(self.extra_args[i - 1]@));
            assert(out.deep_view() =~= seq![self.backend.name()]
                + self.extra_args.deep_view().subrange(0, i as int));
        }
        assert(self.extra_args.deep_view().subrange(0, i as int) =~= self@.extra_args);
        let ghost before = out.deep_view();
        let stem = self.output_stem();
        out.push(String::from_str("-o"));
        out.push(stem);
        out.push(String::from_str("--lib"));
        out.push(self.src.clone());
        assert(out.deep_view() =~= before + seq!["-o"@, self@.output_stem(), "--lib"@, self@.src]);
        out
    }

    /// The end of the build step for a manifest that has been read: the
    /// library, with the C source and the C header beside the manifest,
    /// where the manifest keeps the rules of its schema, and a failure where
    /// it breaks them. For a backend that yields no C library the step ends
    /// without one.
    pub fn finish(&self, manifest: Manifest) -> (r: Action)
        ensures
            self@.finished(manifest@, r),
    {
        if !self.backend.has_c_library() {
            return Action::Done(None);
        }
        match manifest.validate() {
            Ok(()) => Action::Done(
                Some(
                    Library {
                        manifest,
                        c_file: self.artefact("c"),
                        h_file: self.artefact("h"),
                        src: self.src.clone(),
                    },
                ),
            ),
            Err(e) => Action::Fail(e),
        }
    }

    /// The driver's next move. At the start it asks for a run of the
    /// upstream compiler. After a run that failed it fails; after one that
    /// succeeded it is done without a library where the backend yields none,
    /// and asks for the file of the manifest otherwise. Bytes that hold a
    /// manifest that keeps the rules of its schema end the step with the
    /// library; any others fail it. No event makes a library for a backend
    /// that yields none: bytes that are reported for such a backend are not
    /// looked at. A failure that the caller met is handed on as it is.
    pub fn compile(&self, event: Event) -> (r: Action)
        ensures
            match event {
                Event::Start => r matches Action::Run { program, arguments } && program@
                    == self@.exe && arguments.deep_view() == self@.arguments(),
                Event::Exited { success } => if !success {
                    r matches Action::Fail(e) && e@ == ErrorModel::CompilationFailed
                } else if !self@.backend.emits_c_library() {
                    r matches Action::Done(None)
                } else {
                    r matches Action::Load { path } && path@ == self@.artefact("json"@)
                },
                Event::Loaded(bytes) => if !self@.backend.emits_c_library() {
                    r matches Action::Done(None)
                } else {
                    match parsed_document(bytes@) {
                        Ok(d) => match manifest_read(d) {
                            Ok(m) => self@.finished(m, r),
                            Err(text) => r matches Action::Fail(e) && e@
                                == ErrorModel::ManifestParse(text),
                        },
                        Err(message) => r matches Action::Fail(e) && e@
                            == ErrorModel::ManifestParse(message),
                    }
                },
                Event::Failed(e) => r matches Action::Fail(x) && x@ == e@,
            },
    {
        match event {
            Event::Start => Action::Run {
                program: self.exe.clone(),
                arguments: self.arguments(),
            },
            Event::Exited { success } => {
                if !success {
                    Action::Fail(Error::CompilationFailed)
                } else if !self.backend.has_c_library() {
                    Action::Done(None)
                } else {
                    Action::Load { path: self.artefact("json") }
                }
            },
            Event::Loaded(bytes) => {
                if !self.backend.has_c_library() {
                    Action::Done(None)
                } else {
                    match Manifest::parse(bytes.as_slice()) {
                        Ok(manifest) => self.finish(manifest),
                        Err(e) => Action::Fail(e),
                    }
                }
            },
            Event::Failed(e) => Action::Fail(e),
        }
    }
}

} // verus!

//! The code generator: one emitter for each host language, behind one
//! interface, and the choice among them.

use vstd::prelude::*;
use crate::compiler::{Library, LibraryModel};
use crate::config::{Config, ConfigModel, Target};
use crate::error::Error;
use crate::manifest::{breach, ManifestModel};
use crate::plan::BindingsModel;
use crate::ocaml::{ocaml_module, ocaml_module_text};
use crate::rust::{rust_module, rust_module_text};

verus! {

/// An emitter of bindings in one host language.
pub trait Generate {
    /// The module that the emitter writes for `bindings` under the settings
    /// `config`.
    spec fn module_text(&self, bindings: BindingsModel, config: ConfigModel) -> Seq<char>;

    /// Writes the bindings of `library`. The text depends on the manifest
    /// and the settings alone, so that two runs on the same input give the
    /// same text. A manifest that breaks the rules of its schema is refused.
    fn generate(&self, library: &Library, config: &Config) -> (r: Result<String, Error>)
        ensures
            emitted(
                library@.manifest,
                self.module_text(library@.manifest.bindings(), config@),
                r,
            ),
    ;
}

/// What a run of an emitter on a library with the manifest `manifest` may
/// return, where `text` is the module that the emitter writes for the
/// library's bindings: that text where the manifest keeps the rules of its
/// schema, and the refusal of the manifest where not.
pub open spec fn emitted(
    manifest: ManifestModel,
    text: Seq<char>,
    r: Result<String, Error>,
) -> bool {
    if manifest.valid() {
        r is Ok && r->Ok_0@ == text
    } else {
        r is Err && r->Err_0@ == breach()
    }
}

/// The emitter for the systems language.
#[derive(Debug, Clone, Copy, PartialEq, Eq, Structural)]
pub struct Rust;

impl Generate for Rust {
    open spec fn module_text(&self, bindings: BindingsModel, config: ConfigModel) -> Seq<char> {
        rust_module_text(bindings, config.module_name, config.attributes)
    }

    fn generate(&self, library: &Library, config: &Config) -> (r: Result<String, Error>) {
        match library.manifest.validate() {
            Ok(()) => {
                let bindings = library.manifest.bindings();
                Ok(rust_module(&bindings, config.module_name(), config.attributes()))
            },
            Err(e) => Err(e),
        }
    }
}

/// The emitter for the ML-family language.
#[derive(Debug, Clone, Copy, PartialEq, Eq, Structural)]
pub struct OCaml;

impl Generate for OCaml {
    open spec fn module_text(&self, bindings: BindingsModel, config: ConfigModel) -> Seq<char> {
        ocaml_module_text(bindings, config.module_name, config.attributes)
    }

    fn generate(&self, library: &Library, config: &Config) -> (r: Result<String, Error>) {
        match library.manifest.validate() {
            Ok(()) => {
                let bindings = library.manifest.bindings();
                Ok(ocaml_module(&bindings, config.module_name(), config.attributes()))
            },
            Err(e) => Err(e),
        }
    }
}

/// The emitter that a configuration has picked.
#[derive(Debug, Clone, Copy, PartialEq, Eq, Structural)]
pub enum Generator {
    Rust(Rust),
    OCaml(OCaml),
}

impl Generate for Generator {
    open spec fn module_text(&self, bindings: BindingsModel, config: ConfigModel) -> Seq<char> {
        match self {
            Generator::Rust(g) => g.module_text(bindings, config),
            Generator::OCaml(g) => g.module_text(bindings, config),
        }
    }

    fn generate(&self, library: &Library, config: &Config) -> (r: Result<String, Error>) {
        match self {
            Generator::Rust(g) => g.generate(library, config),
            Generator::OCaml(g) => g.generate(library, config),
        }
    }
}

/// The emitter for the host language `target`.
pub open spec fn generator_for(target: Target) -> Generator {
    match target {
        Target::Rust => Generator::Rust(Rust),
        Target::OCaml => Generator::OCaml(OCaml),
    }
}

impl Config {
    /// The emitter for the host language that the destination names.
    pub fn detect(&self) -> (r: Generator)
        ensures
            r == generator_for(self@.target),
    {
        match self.target() {
            Target::Rust => Generator::Rust(Rust),
            Target::OCaml => Generator::OCaml(OCaml),
        }
    }
}

/// Two runs of an emitter on the same manifest under the same settings end
/// alike: both refuse the manifest, or both give the same text, character by
/// character. Where the files of the two libraries lie makes no difference.
pub proof fn lemma_generation_is_deterministic<G: Generate>(
    g: &G,
    first: LibraryModel,
    second: LibraryModel,
    config: ConfigModel,
    r1: Result<String, Error>,
    r2: Result<String, Error>,
)
    requires
        first.manifest == second.manifest,
        emitted(first.manifest, g.module_text(first.manifest.bindings(), config), r1),
        emitted(second.manifest, g.module_text(second.manifest.bindings(), config), r2),
    ensures
        r1 is Ok <==> r2 is Ok,
        r1 is Ok ==> r1->Ok_0@ == r2->Ok_0@,
        r1 is Err ==> r1->Err_0@ == r2->Err_0@,
{
}

} // verus!

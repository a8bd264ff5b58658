//! The settings of one run of the code generator.

use vstd::prelude::*;
use vstd::string::*;
use crate::error::{Error, ErrorModel};
use crate::text::{extension, extension_of, file_name_of, file_stem, stem_of, str_eq};

verus! {

/// A host language that bindings are written in.
#[derive(Debug, Clone, Copy, PartialEq, Eq, Structural)]
pub enum Target {
    /// The systems language with ownership.
    Rust,
    /// The ML-family language with garbage collection.
    OCaml,
}

/// The host language whose source files carry the extension of `path`.
pub open spec fn target_of(path: Seq<char>) -> Option<Target> {
    match extension_of(file_name_of(path)) {
        Some(e) => if e == "rs"@ {
            Some(Target::Rust)
        } else if e == "ml"@ {
            Some(Target::OCaml)
        } else {
            None
        },
        None => None,
    }
}

/// Where the bindings go and how they are written.
#[derive(Debug)]
pub struct Config {
    destination: String,
    target: Target,
    module_name: String,
    attributes: bool,
}

/// A `Config` as plain values.
pub struct ConfigModel {
    pub destination: Seq<char>,
    pub target: Target,
    pub module_name: Seq<char>,
    pub attributes: bool,
}

impl View for Config {
    type V = ConfigModel;

    closed spec fn view(&self) -> ConfigModel {
        ConfigModel {
            destination: self.destination@,
            target: self.target,
            module_name: self.module_name@,
            attributes: self.attributes,
        }
    }
}

impl Config {
    /// The settings for bindings written to `dest`. The extension of `dest`
    /// picks the host language: `.rs` or `.ml`, and no other is known. The
    /// module is named after the stem of `dest`, and the attributes that a
    /// host language offers for such a module are written.
    pub fn new(dest: &str) -> (r: Result<Config, Error>)
        ensures
            match target_of(dest@) {
                Some(t) => r is Ok && r->Ok_0@ == (ConfigModel {
                    destination: dest@,
                    target: t,
                    module_name: stem_of(file_name_of(dest@)),
                    attributes: true,
                }),
                None => r is Err && r->Err_0@ == ErrorModel::InvalidOutputLanguage,
            },
    {
        let target = match extension(dest) {
            Some(e) => {
                if str_eq(e, "rs") {
                    Target::Rust
                } else if str_eq(e, "ml") {
                    Target::OCaml
                } else {
                    return Err(Error::InvalidOutputLanguage);
                }
            },
            None => {
                return Err(Error::InvalidOutputLanguage);
            },
        };
        Ok(
            Config {
                destination: String::from_str(dest),
                target,
                module_name: String::from_str(file_stem(dest)),
                attributes: true,
            },
        )
    }

    /// Names the module otherwise than after the destination.
    pub fn with_module_name(self, name: &str) -> (r: Config)
        ensures
            r@ == (ConfigModel { module_name: name@, ..self@ }),
    {
        Config {
            destination: self.destination,
            target: self.target,
            module_name: String::from_str(name),
            attributes: self.attributes,
        }
    }

    /// Says whether the host language's attributes are written.
    pub fn with_attributes(self, attributes: bool) -> (r: Config)
        ensures
            r@ == (ConfigModel { attributes, ..self@ }),
    {
        Config {
            destination: self.destination,
            target: self.target,
            module_name: self.module_name,
            attributes,
        }
    }

    /// The path that the bindings are written to.
    pub fn destination(&self) -> (r: &str)
        ensures
            r@ == self@.destination,
    {
        self.destination.as_str()
    }

    /// The host language of the bindings.
    pub fn target(&self) -> (r: Target)
        ensures
            r == self@.target,
    {
        self.target
    }

    /// The name of the module that holds the bindings.
    pub fn module_name(&self) -> (r: &str)
        ensures
            r@ == self@.module_name,
    {
        self.module_name.as_str()
    }

    /// Whether the host language's attributes are written.
    pub fn attributes(&self) -> (r: bool)
        ensures
            r == self@.attributes,
    {
        self.attributes
    }
}

} // verus!

//! The build step of a build script, after the upstream compiler has run:
//! what is written, and where. What is linked afterwards is the library's
//! link plan.

use vstd::prelude::*;
use crate::compiler::{Library, LibraryModel};
use crate::config::{target_of, Config, ConfigModel};
use crate::error::{Error, ErrorModel};
use crate::generate::{generator_for, Generate};
use crate::manifest::breach;
use crate::text::{file_name_of, join, join_of, stem_of};

verus! {

/// What is left to write once the bindings are made.
#[derive(Debug)]
pub struct Outputs {
    /// The file that the bindings go to.
    pub destination: String,
    /// The bindings.
    pub text: String,
}

/// `Outputs` as plain values.
pub struct OutputsModel {
    pub destination: Seq<char>,
    pub text: Seq<char>,
}

impl View for Outputs {
    type V = OutputsModel;

    open spec fn view(&self) -> OutputsModel {
        OutputsModel { destination: self.destination@, text: self.text@ }
    }
}

/// The settings of a build that writes to `dest` below `out_dir`, where
/// the extension of `dest` names a host language.
pub open spec fn build_config(out_dir: Seq<char>, dest: Seq<char>) -> Option<ConfigModel> {
    let destination = join_of(out_dir, dest);
    match target_of(destination) {
        Some(target) => Some(
            ConfigModel {
                destination,
                target,
                module_name: stem_of(file_name_of(destination)),
                attributes: true,
            },
        ),
        None => None,
    }
}

/// Whether `r` is what a build makes of `library`, writing to `dest` below
/// `out_dir`. Without a library there is nothing to write, and that is no
/// failure. With one, the destination must name a host language and the
/// manifest must keep the rules of its schema; the bindings are then those
/// of the emitter for that language.
pub open spec fn built(
    library: Option<LibraryModel>,
    out_dir: Seq<char>,
    dest: Seq<char>,
    r: Result<Option<Outputs>, Error>,
) -> bool {
    match library {
        None => r matches Ok(None),
        Some(library) => match build_config(out_dir, dest) {
            None => r is Err && r->Err_0@ == ErrorModel::InvalidOutputLanguage,
            Some(config) => {
                let text = generator_for(config.target).module_text(
                    library.manifest.bindings(),
                    config,
                );
                if library.manifest.valid() {
                    r matches Ok(Some(outputs)) && outputs@ == (OutputsModel {
                        destination: config.destination,
                        text,
                    })
                } else {
                    r is Err && r->Err_0@ == breach()
                }
            },
        },
    }
}

/// Makes the bindings of `library` for the file `dest` below the build's
/// output directory `out_dir`. `out_dir` is put before `dest` once. Once
/// the bindings are written, the library is linked as `Library::link`
/// plans it.
pub fn build(library: Option<&Library>, out_dir: &str, dest: &str) -> (r: Result<
    Option<Outputs>,
    Error,
>)
    ensures
        built(library.deep_view(), out_dir@, dest@, r),
{
    match library {
        None => Ok(None),
        Some(library) => {
            let destination = join(out_dir, dest);
            let config = Config::new(destination.as_str())?;
            let text = config.detect().generate(library, &config)?;
            Ok(Some(Outputs { destination, text }))
        },
    }
}

/// As `build`: `dest` is taken below the build's output directory, which
/// is put before it once and not twice.
pub fn build_in_out_dir(library: Option<&Library>, out_dir: &str, dest: &str) -> (r: Result<
    Option<Outputs>,
    Error,
>)
    ensures
        built(library.deep_view(), out_dir@, dest@, r),
{
    build(library, out_dir, dest)
}

} // verus!

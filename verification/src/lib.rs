//! Bindings for the C libraries that the Futhark compiler writes: the driver
//! of the compiler, the manifest of a library, and the emitters that turn a
//! manifest into a module of a host language.

pub mod backend;
pub mod compiler;
pub mod config;
pub mod document;
pub mod error;
pub mod generate;
pub mod json;
pub mod keyed;
pub mod link;
pub mod manifest;
pub mod ocaml;
pub mod outputs;
pub mod plan;
pub mod primitive;
pub mod rust;
pub mod schema;
pub mod serial;
pub mod text;

pub use backend::Backend;
pub use compiler::{Action, Compiler, Event, Library};
pub use config::{Config, Target};
pub use error::Error;
pub use generate::{Generate, Generator, OCaml, Rust};
pub use link::LinkPlan;
pub use manifest::Manifest;
pub use outputs::{build, build_in_out_dir, Outputs};

//! The file handling around the generation of language bindings.

pub mod kotlin;
pub mod swift;

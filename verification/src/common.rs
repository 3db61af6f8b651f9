//! What every platform shares: build options, text helpers, command and
//! environment values.

pub mod cargo;
pub mod command;
pub mod environment;
pub mod error;
pub mod metadata;
pub mod models;
pub mod path;
pub mod pipeline;
pub mod staging;
pub mod text;

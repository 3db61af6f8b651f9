//! Planning of cross-platform builds of one native library: which targets a
//! selection of platforms and architectures stands for, which build, merge
//! and bundling commands realise each target, how the Android toolchain is
//! prepared, and how the distributable package is laid out.
//!
//! Every function here computes on plain values. Running the commands and
//! touching the file system is left to the caller.

pub mod android;
pub mod apple;
pub mod commands;
pub mod common;
pub mod console;
pub mod ffi;
pub mod ohos;

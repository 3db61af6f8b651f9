//! Android: targets, toolchain preparation and the package archive.

pub mod android_target;
pub mod package;
pub mod aar;

//! Apple platforms: targets, build commands and the Swift package.

pub mod apple_target;
pub mod package;
pub mod swiftpackage;
pub mod xcframework;

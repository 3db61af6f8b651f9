//! The commands besides building a package.

pub mod init;

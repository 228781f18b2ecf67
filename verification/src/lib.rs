//! Build targets of an FFI toolchain: the Rust target triples that each
//! packaging platform builds for, the host platforms that native packages
//! run on, and the names of the libraries built for them.

pub mod text;
pub mod dedup;
pub mod paths;

pub mod platform;
pub mod rust_target;
pub mod arch;
pub mod resolve;
pub mod built;

pub mod host;
pub mod java;
pub mod jvm;
pub mod csharp;

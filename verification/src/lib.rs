//! Planning and checking logic for installing the Seele toolchain:
//! command-line options, the LLVM and Rust build invocations, the
//! installation steps, and the reading of tool output.

pub mod text;
pub mod config;
pub mod paths;
pub mod steps;
pub mod llvm;
pub mod rustlib;
pub mod rust;
pub mod probe;

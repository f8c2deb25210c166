//! Language runtimes: how each supported language is compiled and run, and
//! the registry that looks them up by id.

pub mod runtime;
pub mod c;
pub mod cpp;
pub mod java;
pub mod node;
pub mod python;
pub mod ruby;
pub mod rust;
pub mod registry;

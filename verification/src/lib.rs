//! A sandboxed code-execution engine: submissions, language runtimes, the
//! sandbox pool, compile and run outcomes, and the worker that drives a job.

pub mod text;
pub mod models;
pub mod errors;
pub mod runtime;
pub mod isolate;
pub mod executor;
pub mod compiler;
pub mod pool;
pub mod store;
pub mod config;
pub mod api;
pub mod worker;

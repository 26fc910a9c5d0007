//! Core engine of a profiling front-end for cargo projects.
//!
//! The library turns a loosely specified user request ("profile the binary",
//! "profile unit test X", "profile example Y") into a precise build-tool
//! invocation, disambiguates which declared build target is meant, extracts
//! the single resulting executable from the build tool's message stream, and
//! assembles the command line for an external memory profiler.
//!
//! All subprocess spawning and file-system probing live outside this crate;
//! the functions here work on plain values handed in by the caller and carry
//! contracts describing exactly what they return.

pub mod errors;
pub mod extractor;
pub mod invoker;
pub mod launcher;
pub mod paths;
pub mod request;
pub mod resolver;

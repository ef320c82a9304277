//! Host-side embedding of a sandboxed injection detector.
//!
//! The detector itself is a WebAssembly module that the caller supplies. This
//! crate instantiates it in a sandbox with no access to the outside, copies a
//! text into the sandbox's memory, runs one of its two detectors on it, reads
//! the answer back, and returns every allocation it took.

pub mod fingerprint;
pub mod fixture;
pub mod host;
pub mod query;
pub mod sandbox;
pub mod text;

pub use fixture::{get_sqli_tests, parse_fixture, Test};
pub use query::{is_sqli, is_xss, QueryError};
pub use sandbox::{
    get_engine, get_engine_with, DetectorImage, Export, Sandbox, StartupError, MEMORY_GROWTH,
    MEMORY_GUARD, MEMORY_RESERVATION,
};

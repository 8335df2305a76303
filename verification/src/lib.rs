//! Disposable single-use development containers: a verified core.
//!
//! The crate turns a declarative set of "install X via Y" requests into a
//! single short-circuiting shell script, bundles it with runtime parameters
//! (image, output directory, capabilities) into a run request, and computes
//! the exact argument vectors for the container-runtime invocations.
//! Spawning the runtime process itself is left to the surrounding binary.

pub mod container;
pub mod text;

//! Lifecycle management for a backend sidecar: the build-time naming and
//! packaging decisions, the runtime resolution and start of the child process,
//! the tagging of its output lines, and the shutdown coordinator that makes
//! sure the child never outlives the application.
pub mod text;
pub mod artifact;
pub mod lifecycle;
pub mod stream;

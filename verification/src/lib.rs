//! Window registry and dispatch bridge between a scripting host and a native
//! windowing backend.
//!
//! The host calls operations by name with a list of dynamically typed values.
//! The bridge unpacks the arguments, decides on its state what is to be asked
//! of the backend, keeps the windows under the handles it issues, and packs
//! the backend's answers into host values. The native calls themselves are
//! made by the caller of this library, which hands their results back.
//!
//! - [`value`]: the host's values.
//! - [`error`]: the failures an operation can report.
//! - [`adapter`]: argument lists to typed parameters, native results to values.
//! - [`keys`]: the backend's key identifiers and key states.
//! - [`registry`]: window entries by handle.
//! - [`bridge`]: the state and the operations on it.
//! - [`ops`]: the published operations and their names.
//! - [`laws`]: what holds over whole runs.

pub mod adapter;
pub mod bridge;
pub mod error;
pub mod keys;
pub mod laws;
pub mod ops;
pub mod registry;
pub mod value;

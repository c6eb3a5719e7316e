//! The inputs of the merge-request operations and the payloads built from them.
pub mod gitlab;

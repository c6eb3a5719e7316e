//! Merge-request operations against the GitLab REST API: request building,
//! response interpretation and discussion-position validation.
pub mod config;
pub mod error;
pub mod gitlab;
pub mod json;
pub mod text;
pub mod tools;

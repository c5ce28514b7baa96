//! Verified core of an agent runtime.
pub mod agent;
pub mod daemon;
pub mod json;
pub mod laws;
pub mod text;
pub mod tools;

//! What the daemon settles before it starts.
pub mod pid;
pub mod preflight;

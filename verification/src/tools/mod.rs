//! Tools that the agent can use.
pub mod mail;

//! The mail tool: sending mail and looking it up over the configured account.
pub mod action_laws;
pub mod calendar;
pub mod compose;
pub mod identifier;
pub mod laws;
pub mod listing;
pub mod message;
pub mod reading_laws;
pub mod record;
pub mod result;
pub mod scan;
pub mod tool;

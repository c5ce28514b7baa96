//! Laws of the library's functions: what each may return, said of its arguments.
pub mod agent;
pub mod daemon;
pub mod mail;
pub mod text;

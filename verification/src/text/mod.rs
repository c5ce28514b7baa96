//! Text operations on Unicode scalar values, each stated over `Seq<char>`.
pub mod chars;
pub mod decimal;
pub mod laws;
pub mod order;
pub mod words;

//! The four computation kinds and what they share.

pub mod cont;
pub mod function;
pub mod monoid;
pub mod reader;
pub mod state;
pub mod writer;

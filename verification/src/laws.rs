//! The functor and monad laws, proved over the models of the computations.

pub mod cont;
pub mod function;
pub mod monoid;
pub mod reader;
pub mod state;
pub mod writer;

//! Effect composition: Writer, Reader, State and Continuation computations
//! built from `unit`, `fmap`, `apply` and `bind`.
//!
//! A computation is a description: building one calls nothing, and what it
//! does shows only when it is run. Every contract is stated over the model of
//! a computation, which says what it accepts and what it may return:
//!
//! - [`monads`] holds the four kinds of computation, the function values they
//!   wrap and the monoids that a Writer logs in;
//! - [`laws`] proves the functor and monad laws over the models.

pub mod laws;
pub mod monads;

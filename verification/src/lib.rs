//! A counter and a table of per-identity numbers, kept behind a fixed set of
//! operations that a ledger runtime invokes one at a time.
//!
//! The state machine is [`Incrementer`]. Its mathematical model is
//! [`State`]: the contract of every operation says which `State` it leaves
//! behind and what it returns, and [`laws`] proves what follows from that.
//!
//! An addition whose sum does not fit into an `i32` is never applied: the
//! operation returns [`Error::Overflow`] and leaves the state as it was.

pub mod balances;
pub mod error;
pub mod identity;
pub mod incrementer;
pub mod laws;
pub mod state;

pub use error::Error;
pub use identity::Identity;
pub use incrementer::Incrementer;
pub use state::State;

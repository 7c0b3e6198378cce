//! A generator wrapper that replaces the state of the generator it wraps,
//! from a second generator, each time a set number of bytes has been produced.
//!
//! A failed reseed never stops the output: it only postpones the next attempt,
//! by a delay that depends on how serious the failure was.
//!
//! - [`error`]: the error that generators report, and its severity.
//! - [`rng`]: what a generator offers, and what one that can be reseeded does.
//! - [`budget`]: the byte budget and the retry delays.
//! - [`state`]: the wrapper as contracts see it, and what each step makes of it.
//! - [`reseeding`]: the wrapper itself.
//! - [`history`]: the budget over a sequence of calls.

pub mod error;
pub mod rng;
pub mod budget;
pub mod state;
pub mod reseeding;
pub mod history;

pub use budget::Budget;
pub use error::{Error, ErrorKind};
pub use reseeding::ReseedingRng;
pub use rng::{RngCore, SeedableRng};

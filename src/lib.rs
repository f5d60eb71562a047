//! A two-party escrow game: each party locks one single-unit asset into
//! program custody, an arbiter names a winner, and custody of both assets is
//! handed over in one atomic step.
//!
//! The library holds the record formats, the validation predicates, the
//! transition rules of the game, and the instruction decoder. Every transition
//! is a pure function from the supplied accounts to either an error or the
//! ordered list of effects (custody hand-overs, account creation, record
//! writes) that the runtime layer must perform.
pub mod account;
pub mod address;
pub mod effect;
pub mod error;
pub mod identity;
pub mod instruction;
pub mod lifecycle;
pub mod processor;
pub mod state;
pub mod token;
pub mod validations;

//! A vault that keeps a derivative of an underlying token for its users, and
//! the claims that decide what may be done with it.
//!
//! The library decides and the ledger acts. Records and instructions are
//! fixed layouts of bytes (`state`, `credential`, `instruction`, `claim`).
//! Processing an instruction on the accounts it is handed (`processor`,
//! `claim_engine`) changes nothing: it returns the effects for the ledger to
//! carry out in order, or the failure that ends the instruction. What the
//! ledger and the token program compute is called in `ledger` and believed as
//! stated there; everything else is proved.

pub mod account;
pub mod address;
pub mod claim;
pub mod claim_engine;
pub mod codec;
pub mod credential;
pub mod error;
pub mod instruction;
pub mod ledger;
pub mod processor;
pub mod state;
pub mod token;

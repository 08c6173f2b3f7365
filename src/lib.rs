//! Time-locked escrow engine.
//!
//! A depositor locks a token balance in a holding account whose control is
//! handed to a keyless authority derived from this program's identity; the
//! receiver can claim it once the record has matured, in one release that
//! also refunds the depositor's storage deposit and wipes the record.
//!
//! Everything here works on plain values: account identities are 32-byte
//! arrays, records are byte buffers, and the effects that only the ledger
//! can perform are described as token-program calls for the host to run.

pub mod error;
pub mod layout;
pub mod state;
pub mod registry;
pub mod instruction;
pub mod custody;
pub mod processor;
pub mod lifecycle;
pub mod deposit;

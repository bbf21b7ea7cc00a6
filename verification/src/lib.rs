//! Consensus and custody core of a two-ledger bridge.
//!
//! A rotating set of relays votes on proposals; a two-thirds-plus-one quorum of
//! confirmations authorises a rotation of the relay set or the release of value.
//! The executable functions of this crate carry contracts that Verus proves.
//! The one call that leaves the crate, the packing of a token symbol, is
//! trusted as its documentation states it.

pub mod chunk;
pub mod error;
pub mod event;
pub mod gate;
pub mod instruction;
pub mod limiter;
pub mod packing;
pub mod registry;
pub mod round;
pub mod state;
pub mod types;
pub mod voting;
pub mod withdrawal;

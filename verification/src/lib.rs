//! Replay-protected completion of cross-chain transfers: a strict decoder for
//! attested messages, deterministic derivation of every account a completion
//! touches, a single-use claim ledger, and the completion step itself.

pub mod bytes;
pub mod claim;
pub mod codec;
pub mod complete;
pub mod derivation;

//! A minimal fungible-token ledger for a transaction-serial host:
//! balance storage, supply accounting, and an authorization-gated
//! transfer protocol. The persisted state is modelled as an explicit
//! ledger object threaded through every operation, and the host's
//! authorization gate is an injected boolean capability, so that every
//! rule of the ledger is stated and proved here.

pub mod errors;
pub mod laws;
pub mod metadata;
pub mod token;

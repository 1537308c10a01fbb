//! Confidential transaction execution pipeline.
//!
//! A per-block executor intercepts each transaction before it reaches the
//! state-transition engine: it decrypts confidential payloads through a
//! key-management client, normalizes every supported transaction encoding
//! into a canonical execution environment, builds type-tagged receipts, and
//! gates features by a hardfork activation schedule.

pub mod block;
pub mod enclave;
pub mod evm;
pub mod hardfork;
pub mod primitives;
pub mod receipt_builder;
pub mod tx;

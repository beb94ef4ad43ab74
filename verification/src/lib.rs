//! Core of a cross-chain token bridge relayer: a coordinator holding
//! per-domain deposit counters, a resource-to-handler routing table, a
//! replay-protection nonce bitmap, pause gating and admin access control,
//! together with a proposal execution engine and a typed-data crypto core.

pub mod bitmap;
pub mod bridge;
pub mod crypto;
pub mod doubles;
pub mod error;
pub mod events;
pub mod handler;
pub mod pausable;
pub mod traits;
pub mod types;


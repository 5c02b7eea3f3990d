//! Verified core of an L1-to-L2 protocol-upgrade ingestion pipeline.
//!
//! The central piece is the upgrade event processor (`upgrades`): it
//! decodes protocol upgrade proposals from L1 event logs (`events`,
//! `proposal`), resolves auxiliary verifier data (`client`), filters out
//! already-applied upgrades, extends the linear chain of persisted
//! protocol versions (`versions`), and maintains a watermark of the
//! highest applied version id. Its topic is computed from an embedded
//! historical contract schema (`abi`).
//!
//! Around the core live the pieces of the surrounding node whose logic
//! is worth proving: the contracts-configuration wire conversion
//! (`contracts_config`, `hex`), the prover key store's file layout
//! (`keystore`), the system-contract deployment set
//! (`system_contracts`), plain configuration records (`configs`),
//! wallet-creation decisions (`wallets`), and price-API wiring
//! (`price_api`).

pub mod abi;
pub mod client;
pub mod configs;
pub mod contracts_config;
pub mod error;
pub mod events;
pub mod hash;
pub mod hex;
pub mod keystore;
pub mod price_api;
pub mod proposal;
pub mod system_contracts;
pub mod upgrades;
pub mod versions;
pub mod wallets;

pub use hash::H160;
pub use hash::H256;

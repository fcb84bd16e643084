//! Forgiveness mechanics for trust systems: the bookkeeping of relationships,
//! the decisions of the forgiveness engine and the integer side of erasure
//! pattern detection, with their contracts. Trust scores are of any `Copy`
//! type `S`; the arithmetic on them is left to the caller, which hands the
//! library the scores it computed.

pub mod engine;
pub mod erasure;
pub mod laws;
pub mod relationship;
pub mod trust;

pub use engine::{ForgivenessConfig, ForgivenessEngine, ForgivenessRate, TrustAdjustment};
pub use erasure::{EmbeddingVerdict, ErasureDetector, ErasureReport};
pub use relationship::{Interaction, Relationship};
pub use trust::{Action, TrustState};

//! Verified state transitions of two small on-chain programs: a one-shot quiz
//! that grades a user's answers against a fixed key, and a vault whose
//! authority may withdraw lamports while the vault is unlocked.
pub mod key;
pub mod quiz;
pub mod vault;

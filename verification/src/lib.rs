//! Token-issuance ledger core.
//!
//! The library allocates unique, strictly increasing token identifiers under
//! a fixed supply cap, validates payment amounts against a per-token price,
//! records per-token metadata, and resolves a display URI for tokens that
//! lack an explicit metadata entry.  Every operation either completes and
//! reports exactly what it changed, or fails with a typed error and leaves
//! the state untouched.

pub mod data;
pub mod decimal;
pub mod errors;
mod internal;
pub mod laws;
pub mod metadata_map;
pub mod minting;
pub mod ownership;
pub mod state;
pub mod types;

//! An authority service that mints single-unit tokens for one collection.
//!
//! The collection record is created once by `initialize` and advanced by
//! `mint_nft`; every signing authority the program uses is a program-derived
//! address computed from fixed labels.

pub mod address;
pub mod error;
pub mod pda;
pub mod state;
pub mod program;
pub mod laws;

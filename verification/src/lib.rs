//! Construction and validation of notarization transactions.
//!
//! A notarization is a ledger record that pairs a payload with metadata, timestamps, a
//! version counter and time-based access locks. This crate holds the value model, the
//! rules that decide which configurations are legal, the compiler from a configuration
//! to a sequence of ledger instructions, and the decoders that turn ledger answers back
//! into typed values. Network transport, signing and fee handling are left to the caller.

pub mod builder;
pub mod client;
pub mod decoding;
pub mod encoding;
pub mod error;
pub mod move_utils;
pub mod operations;
pub mod package;
pub mod programmable;
pub mod transactions;
pub mod types;

//! Transaction operations for notarizations.
//!
//! Each transaction object holds the parameters of one operation and the programmable
//! transaction compiled from them, once it has been compiled.

pub mod cache;
pub mod create;
pub mod destroy;
pub mod transfer;
pub mod update_metadata;
pub mod update_state;

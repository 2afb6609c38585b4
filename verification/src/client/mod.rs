//! The parts of a ledger client that need no connection: what a client knows of its
//! network, and how it reads the answers to its queries.

pub mod read_only;

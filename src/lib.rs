//! Data-access layer for `Person` records kept in a document store.
//!
//! The store round trips themselves run outside this crate; everything that
//! decides what to send and how to read what comes back lives here, with
//! contracts checked by Verus.
pub mod identifier;
pub mod person;
pub mod error;
pub mod document;
pub mod repository;
pub mod store;
pub mod pool;

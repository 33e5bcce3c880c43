//! A minimal provenance ledger: immutable product identity records, each
//! carrying an append-only, authorization-gated history of status/location
//! events.
//!
//! Records live at addresses derived deterministically from their numeric id
//! (`address`), are created exactly once (`ledger`), and are mutated only by
//! appending bounded log entries (`product`), which only the record's
//! authority may do.

pub mod address;
pub mod bounds;
pub mod error;
pub mod identity;
pub mod laws;
pub mod ledger;
pub mod product;

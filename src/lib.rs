//! Order-lock validation for a peer-to-peer exchange on CKB.
//!
//! An order cell is locked with terms (who gets paid, how much, in which
//! asset). A transaction may spend it only when the maker authorises it by
//! spending a cell of their own, or when it pays the maker in the same
//! transaction at the output paired with the order's input.

pub mod args;
pub mod bytes;
pub mod cells;
pub mod error;
pub mod laws;
pub mod settle;

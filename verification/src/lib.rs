//! Guest transaction memory layout and account borrow engine.
//!
//! This crate projects a transaction (its accounts and instructions) into a
//! fixed, byte-exact memory layout consumable by an isolated virtual machine,
//! and mediates host-side access to the accounts under a single-writer /
//! multi-reader borrow discipline for the duration of the transaction.

pub mod address_map;
pub mod borrow_counter;
pub mod errors;
pub mod guest_instruction;
pub mod guest_slice;
pub mod guest_transaction;
pub mod message;
pub mod regions;
pub mod transaction_accounts;

//! The store's operations on single rows, one module for each table.

pub mod account;
pub mod category;
pub mod payee;
pub mod transaction;

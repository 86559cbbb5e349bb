//! Envelope-budgeting ledger: accounts, categorised transactions and
//! per-category monthly allocations, with the posting and allocation rules
//! stated as contracts.

pub mod api;
pub mod budget;
pub mod clock;
pub mod currency;
pub mod digits;
pub mod error;
pub mod insert;
pub mod laws;
pub mod ledger;
pub mod models;
pub mod poster;
pub mod restore;
pub mod sequencer;
pub mod shared_string;
pub mod snapshot;

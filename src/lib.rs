//! Escrow custody between a buyer and a seller, with a small poll ledger
//! beside it.
pub mod error;
pub mod escrow;
pub mod identity;
pub mod laws;
pub mod ledger;
pub mod voting;

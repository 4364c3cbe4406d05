//! A milestone escrow ledger with deposit accounting, fee-bearing releases and
//! k-of-n governance, stated and proved over mathematical models of its state.

pub mod amount;
pub mod contract;
pub mod events;
pub mod governance;
pub mod invariants;
pub mod laws;
pub mod ledger;
pub mod model;
pub mod release;
pub mod status;
pub mod storage;
pub mod text;
pub mod types;

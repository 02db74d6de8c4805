//! A one-per-wallet identity token ("MetaID"): validation of the metadata URI,
//! the on-chain identity record, and a model of the accounts that one mint
//! instruction creates, with the laws that hold of it.

pub mod address;
pub mod error;
pub mod laws;
pub mod ledger;
pub mod record;

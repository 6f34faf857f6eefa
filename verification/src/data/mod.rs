pub mod compare;
pub mod id;
pub mod ledger;

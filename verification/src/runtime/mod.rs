pub mod counters;
pub mod error;
pub mod instance;
pub mod store;
pub mod transact;

pub mod errors;
pub mod ledger;
pub mod logger;
pub mod registry;
pub mod vault;

pub mod address;
pub mod errors;
pub mod table;
pub mod derivation;
pub mod ledger;
pub mod vault;
pub mod laws;
pub mod record;

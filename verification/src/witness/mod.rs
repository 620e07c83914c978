pub mod ledger;
pub mod query;
pub mod record;

pub use record::WitnessRecord;

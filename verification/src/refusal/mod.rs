pub mod codes;
pub mod payload;

pub use codes::RefusalCode;
pub use payload::{DetailField, RefusalEnvelope, RefusalPayload};

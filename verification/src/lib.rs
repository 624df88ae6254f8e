//! The failure vocabulary of a small record-management service, and the
//! classifier that turns uniqueness violations reported by the storage engine
//! into errors that name the offending fields.

pub mod classifier;
pub mod constraint;
pub mod error;
pub mod field_errors;
pub mod models;
pub mod person;
pub mod serde_formats;
pub mod text;

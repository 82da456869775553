//! The objects of the Discord API.

pub mod channel;
pub mod command;
pub mod common;
pub mod components;
pub mod guild;
pub mod ids;
pub mod interaction;
pub mod message;
pub mod parse;
pub mod presence;
pub mod user;

use vstd::prelude::*;

verus! {

/// Why a payload cannot be read as a model.
#[derive(Debug, Clone, PartialEq, Eq)]
pub enum ModelError {
    /// A snowflake is missing or malformed.
    InvalidSnowflake(String),
    /// The payload does not have the shape of the model.
    InvalidPayload(String),
    /// A field the model needs is missing.
    MissingField(String),
    /// A time cannot be read.
    InvalidTimestamp(String),
}

/// The kind of a `ModelError`, without its message.
#[derive(Debug, Clone, Copy, PartialEq, Eq, Structural)]
pub enum ModelErrorKind {
    InvalidSnowflake,
    InvalidPayload,
    MissingField,
    InvalidTimestamp,
}

/// The kind of an error.
pub open spec fn kind_of(e: ModelError) -> ModelErrorKind {
    match e {
        ModelError::InvalidSnowflake(_) => ModelErrorKind::InvalidSnowflake,
        ModelError::InvalidPayload(_) => ModelErrorKind::InvalidPayload,
        ModelError::MissingField(_) => ModelErrorKind::MissingField,
        ModelError::InvalidTimestamp(_) => ModelErrorKind::InvalidTimestamp,
    }
}

/// A result of reading a model agrees with what the payload stands for:
/// the value read, or the kind of the error.
pub open spec fn read_as<T: View>(r: Result<T, ModelError>, s: Result<T::V, ModelErrorKind>) -> bool {
    match (r, s) {
        (Ok(x), Ok(v)) => x@ == v,
        (Err(e), Err(k)) => kind_of(e) == k,
        _ => false,
    }
}

} // verus!

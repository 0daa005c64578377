//! The failure taxonomy of the registry.
//!
//! Every operation either succeeds or fails with exactly one of these
//! reasons; no error is retried internally and no state change survives a
//! failed operation.

use vstd::prelude::*;

verus! {

broadcast use vstd::string::to_string_from_display_ensures_for_str;

/// Why an operation failed.
#[derive(Clone, Copy, Debug, PartialEq, Eq, Structural)]
pub enum Error {
    /// `register` was called by an identity other than the admin.
    Authorization,
    /// `register` was called with an id that is already registered.
    Conflict,
    /// `validate` was called with an id that is not registered.
    NotFound,
    /// `validate` was called with a counter at or above 2^24.
    Range,
    /// `validate` was called with a counter not strictly above the stored one.
    Replay,
    /// The recomputed signature does not match the submitted one.
    SignatureInvalid,
    /// A key of a length other than 16 bytes reached the MAC engine.
    Configuration,
}

impl Error {
    /// The human-readable reason reported to the caller.
    pub open spec fn spec_message(self) -> Seq<char> {
        match self {
            Error::Authorization => "Only the contract admin can register new tags"@,
            Error::Conflict => "Tag with ID already registered"@,
            Error::NotFound => "Tag with ID not found"@,
            Error::Range => "Count maximum has been exceeded"@,
            Error::Replay => "Count is older than latest seen"@,
            Error::SignatureInvalid => "Provided signature is invalid"@,
            Error::Configuration => "Invalid MAC key length"@,
        }
    }

    /// The human-readable reason reported to the caller.
    pub fn message(&self) -> (r: String)
        ensures
            r@ == self.spec_message(),
    {
        match self {
            Error::Authorization => "Only the contract admin can register new tags".to_string(),
            Error::Conflict => "Tag with ID already registered".to_string(),
            Error::NotFound => "Tag with ID not found".to_string(),
            Error::Range => "Count maximum has been exceeded".to_string(),
            Error::Replay => "Count is older than latest seen".to_string(),
            Error::SignatureInvalid => "Provided signature is invalid".to_string(),
            Error::Configuration => "Invalid MAC key length".to_string(),
        }
    }
}

} // verus!

//! The ways in which a request can fail.

use vstd::prelude::*;

verus! {

/// Why a request was not carried out. Every storage operation and every
/// handler reports one of these instead of aborting or pretending success.
#[derive(Clone, Copy, Debug, PartialEq, Eq, Structural)]
pub enum Failure {
    /// The catalog file exists but cannot be understood.
    StorageUnavailable,
    /// An entry names a material that the catalog does not hold.
    UnknownMaterial,
    /// A new material's slug is already taken.
    SlugConflict,
    /// An entry's timestamp lies outside the range of representable dates.
    InvalidTimestamp,
    /// The record could not be written to its file.
    WriteFailed,
}

impl Failure {
    /// The text shown to the user for each failure.
    pub open spec fn text(self) -> Seq<char> {
        match self {
            Failure::StorageUnavailable => "storage unavailable"@,
            Failure::UnknownMaterial => "unknown material, please select a valid one"@,
            Failure::SlugConflict => "a material with this name already exists"@,
            Failure::InvalidTimestamp => "timestamp out of range"@,
            Failure::WriteFailed => "the record could not be saved"@,
        }
    }

    /// The HTTP status of each failure: what the client got wrong is a
    /// client error, what the storage got wrong a server error.
    pub open spec fn status_code(self) -> u16 {
        match self {
            Failure::StorageUnavailable => 503,
            Failure::UnknownMaterial => 422,
            Failure::SlugConflict => 409,
            Failure::InvalidTimestamp => 422,
            Failure::WriteFailed => 500,
        }
    }

    /// The HTTP status to answer with.
    pub fn status(&self) -> (code: u16)
        ensures
            code == self.status_code(),
    {
        match self {
            Failure::StorageUnavailable => 503,
            Failure::UnknownMaterial => 422,
            Failure::SlugConflict => 409,
            Failure::InvalidTimestamp => 422,
            Failure::WriteFailed => 500,
        }
    }

    /// The text shown to the user.
    pub fn message(&self) -> (m: &'static str)
        ensures
            m@ == self.text(),
    {
        match self {
            Failure::StorageUnavailable => "storage unavailable",
            Failure::UnknownMaterial => "unknown material, please select a valid one",
            Failure::SlugConflict => "a material with this name already exists",
            Failure::InvalidTimestamp => "timestamp out of range",
            Failure::WriteFailed => "the record could not be saved",
        }
    }
}

} // verus!

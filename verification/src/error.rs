//! What a refused or failed store operation reports.

use vstd::prelude::*;

verus! {

/// Why the database refused a statement.
#[derive(Debug, Clone, Copy, PartialEq, Eq)]
pub enum DatabaseFault {
    /// The database clock is behind the recorded high-water mark, so a
    /// timestamp that must be written has no value.
    ClockBehind,
    /// A row with the same key exists.
    DuplicateKey,
    /// A counter or a timestamp does not fit into 64 bits.
    OutOfRange,
    /// A column that must hold a value is empty.
    MissingValue,
    /// A row that must exist does not.
    RowNotFound,
}

/// Why a store operation failed.
#[derive(Debug, Clone, Copy, PartialEq, Eq)]
pub enum StoreError {
    Database(DatabaseFault),
    InvalidInput(&'static str),
    MissingState(&'static str),
    UnsupportedSchemaVersion,
    ClockRegression,
    ClockFenced,
    ClockSourceUnavailable,
}

impl StoreError {
    /// The message of the error.
    pub open spec fn text(self) -> Seq<char> {
        match self {
            StoreError::Database(_) => "controller database operation failed"@,
            StoreError::InvalidInput(field) => "invalid store input: "@ + field@,
            StoreError::MissingState(field) => "controller state is missing: "@ + field@,
            StoreError::UnsupportedSchemaVersion => "controller schema version is unsupported"@,
            StoreError::ClockRegression => "controller database clock regressed"@,
            StoreError::ClockFenced => "controller clock is fenced"@,
            StoreError::ClockSourceUnavailable => "controller clock source is unavailable"@,
        }
    }

    /// The message that is shown for the error. It never holds what the
    /// database reported.
    pub fn message(&self) -> (message: String)
        ensures
            message@ == self.text(),
    {
        match self {
            StoreError::Database(_) => "controller database operation failed".to_owned(),
            StoreError::InvalidInput(field) => {
                let mut message = "invalid store input: ".to_owned();
                message.append(field);
                message
            },
            StoreError::MissingState(field) => {
                let mut message = "controller state is missing: ".to_owned();
                message.append(field);
                message
            },
            StoreError::UnsupportedSchemaVersion => {
                "controller schema version is unsupported".to_owned()
            },
            StoreError::ClockRegression => "controller database clock regressed".to_owned(),
            StoreError::ClockFenced => "controller clock is fenced".to_owned(),
            StoreError::ClockSourceUnavailable => {
                "controller clock source is unavailable".to_owned()
            },
        }
    }
}

} // verus!

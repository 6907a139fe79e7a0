//! What can go wrong, and how it is told.

use vstd::prelude::*;
use vstd::string::*;
use crate::decimal::{decimal, decimal_text, signed_decimal, signed_decimal_text};
use crate::value::ValueKind;

verus! {

/// Why a row could not be read as an entity.
///
/// Each variant names the column, by its position in the row, at which
/// reading stopped.
#[derive(Clone, Copy, Debug, PartialEq, Eq, Structural)]
pub enum RowError {
    /// The row has no column at this position.
    MissingColumn { index: usize },
    /// The column holds a value of a storage class that the field cannot take.
    WrongType { index: usize, found: ValueKind },
    /// The column holds a whole number that does not fit the field.
    OutOfRange { index: usize, value: i64 },
    /// The column holds text that is not valid UTF-8.
    InvalidText { index: usize },
}

/// The name of a storage class.
pub open spec fn kind_name(kind: ValueKind) -> Seq<char> {
    match kind {
        ValueKind::Null => "NULL"@,
        ValueKind::Integer => "INTEGER"@,
        ValueKind::Real => "REAL"@,
        ValueKind::Text => "TEXT"@,
        ValueKind::Blob => "BLOB"@,
    }
}

/// The name of a storage class, as text.
pub fn kind_text(kind: ValueKind) -> (name: &'static str)
    ensures
        name@ == kind_name(kind),
{
    match kind {
        ValueKind::Null => "NULL",
        ValueKind::Integer => "INTEGER",
        ValueKind::Real => "REAL",
        ValueKind::Text => "TEXT",
        ValueKind::Blob => "BLOB",
    }
}

impl RowError {
    /// What the message says.
    pub open spec fn message_text(self) -> Seq<char> {
        match self {
            RowError::MissingColumn { index } => "no column at index "@ + decimal(index as nat),
            RowError::WrongType { index, found } => "unexpected "@ + kind_name(found)
                + " value at index "@ + decimal(index as nat),
            RowError::OutOfRange { index, value } => "integer "@ + signed_decimal(value as int)
                + " out of range at index "@ + decimal(index as nat),
            RowError::InvalidText { index } => "text that is not valid UTF-8 at index "@ + decimal(
                index as nat,
            ),
        }
    }

    /// Describes the error in one line.
    pub fn message(&self) -> (text: String)
        ensures
            text@ == self.message_text(),
    {
        match self {
            RowError::MissingColumn { index } => {
                let mut text = String::from_str("no column at index ");
                text.append(decimal_text(*index as u64).as_str());
                text
            },
            RowError::WrongType { index, found } => {
                let mut text = String::from_str("unexpected ");
                text.append(kind_text(*found));
                text.append(" value at index ");
                text.append(decimal_text(*index as u64).as_str());
                text
            },
            RowError::OutOfRange { index, value } => {
                let mut text = String::from_str("integer ");
                text.append(signed_decimal_text(*value).as_str());
                text.append(" out of range at index ");
                text.append(decimal_text(*index as u64).as_str());
                text
            },
            RowError::InvalidText { index } => {
                let mut text = String::from_str("text that is not valid UTF-8 at index ");
                text.append(decimal_text(*index as u64).as_str());
                text
            },
        }
    }
}

/// An operation on the store that failed. Nothing is retried: the caller gets
/// the one error and, with it, no partial result.
#[derive(Clone, Debug, PartialEq, Eq)]
pub enum StoreError {
    /// The store could not be opened or its tables could not be created.
    /// Holds what the store or the file system reported.
    Init(String),
    /// The shared connection could not be had.
    Unavailable,
    /// The store refused a statement. Holds what the store reported.
    Query(String),
    /// A row of a listing could not be read.
    Row(RowError),
}

impl StoreError {
    /// What the message says: the report of the store as it came, or the
    /// library's own words for its own errors.
    pub open spec fn message_text(self) -> Seq<char> {
        match self {
            StoreError::Init(report) => report@,
            StoreError::Unavailable => "store unavailable"@,
            StoreError::Query(report) => report@,
            StoreError::Row(e) => e.message_text(),
        }
    }

    /// Describes the error in one line.
    pub fn message(&self) -> (text: String)
        ensures
            text@ == self.message_text(),
    {
        match self {
            StoreError::Init(report) => report.clone(),
            StoreError::Unavailable => String::from_str("store unavailable"),
            StoreError::Query(report) => report.clone(),
            StoreError::Row(e) => e.message(),
        }
    }
}

} // verus!

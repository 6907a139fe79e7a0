//! Column values as the store holds them.

use vstd::prelude::*;

verus! {

/// The storage class of a column value.
#[derive(Clone, Copy, Debug, PartialEq, Eq, Structural)]
pub enum ValueKind {
    Null,
    Integer,
    Real,
    Text,
    Blob,
}

/// One column value of a row.
///
/// A real number is kept as the bit pattern of its IEEE-754 double, so that a
/// value passes through unchanged. Text is kept as the bytes the store holds,
/// which are meant to be UTF-8 but need not be.
#[derive(Clone, Debug, PartialEq, Eq)]
pub enum SqlValue {
    Null,
    Integer(i64),
    Real(u64),
    Text(Vec<u8>),
    Blob(Vec<u8>),
}

/// The mathematical content of a [`SqlValue`].
pub enum ValueView {
    Null,
    Integer(i64),
    Real(u64),
    Text(Seq<u8>),
    Blob(Seq<u8>),
}

impl View for SqlValue {
    type V = ValueView;

    open spec fn view(&self) -> ValueView {
        match self {
            SqlValue::Null => ValueView::Null,
            SqlValue::Integer(i) => ValueView::Integer(*i),
            SqlValue::Real(bits) => ValueView::Real(*bits),
            SqlValue::Text(bytes) => ValueView::Text(bytes@),
            SqlValue::Blob(bytes) => ValueView::Blob(bytes@),
        }
    }
}

impl DeepView for SqlValue {
    type V = ValueView;

    open spec fn deep_view(&self) -> ValueView {
        self@
    }
}

/// The storage class of a value.
pub open spec fn kind_of(value: ValueView) -> ValueKind {
    match value {
        ValueView::Null => ValueKind::Null,
        ValueView::Integer(_) => ValueKind::Integer,
        ValueView::Real(_) => ValueKind::Real,
        ValueView::Text(_) => ValueKind::Text,
        ValueView::Blob(_) => ValueKind::Blob,
    }
}

impl SqlValue {
    /// The storage class of this value.
    pub fn kind(&self) -> (kind: ValueKind)
        ensures
            kind == kind_of(self@),
    {
        match self {
            SqlValue::Null => ValueKind::Null,
            SqlValue::Integer(_) => ValueKind::Integer,
            SqlValue::Real(_) => ValueKind::Real,
            SqlValue::Text(_) => ValueKind::Text,
            SqlValue::Blob(_) => ValueKind::Blob,
        }
    }
}

/// A real number of an entity, as the store gave it.
///
/// A column of real numbers normally holds doubles. Where the store hands back
/// a whole number instead, it is kept as it came: nothing is rounded here.
#[derive(Clone, Copy, Debug, PartialEq, Eq, Structural)]
pub enum Real {
    /// The bit pattern of an IEEE-754 double.
    Double(u64),
    /// A whole number.
    Whole(i64),
}

} // verus!

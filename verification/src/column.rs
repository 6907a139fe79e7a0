//! Reading and writing single columns.
//!
//! For every kind of field there is a pair: what the field is stored as, and
//! what a stored value reads as. Optional fields use NULL for "no value";
//! whole numbers, real numbers and flags use the store's own numbers; lists
//! are JSON text.

use vstd::prelude::*;
use crate::error::RowError;
use crate::list::{decode_list, encode_list, json_text, list_of_text, unwrap_list};
use crate::text::{decode_text, encode_text, text_of_bytes};
use crate::value::{kind_of, Real, SqlValue, ValueView};

verus! {

// ---------------------------------------------------------------------------
// Reading: what a stored value means for each kind of field
// ---------------------------------------------------------------------------

/// A required text field: only valid UTF-8 text will do.
pub open spec fn text_of(value: ValueView, index: usize) -> Result<Seq<char>, RowError> {
    match value {
        ValueView::Text(bytes) => match text_of_bytes(bytes) {
            Some(text) => Ok(text),
            None => Err(RowError::InvalidText { index }),
        },
        _ => Err(RowError::WrongType { index, found: kind_of(value) }),
    }
}

/// An optional text field: NULL is "no value", anything else must be text.
pub open spec fn opt_text_of(value: ValueView, index: usize) -> Result<
    Option<Seq<char>>,
    RowError,
> {
    match value {
        ValueView::Null => Ok(None),
        _ => match text_of(value, index) {
            Ok(text) => Ok(Some(text)),
            Err(e) => Err(e),
        },
    }
}

/// An optional whole number: NULL is "no value", anything else must be an
/// integer that fits in 32 bits.
pub open spec fn opt_int_of(value: ValueView, index: usize) -> Result<Option<i32>, RowError> {
    match value {
        ValueView::Null => Ok(None),
        ValueView::Integer(i) => if i32::MIN <= i <= i32::MAX {
            Ok(Some(i as i32))
        } else {
            Err(RowError::OutOfRange { index, value: i })
        },
        _ => Err(RowError::WrongType { index, found: kind_of(value) }),
    }
}

/// An optional real number: NULL is "no value"; a double and a whole number
/// are both taken as they are.
pub open spec fn opt_real_of(value: ValueView, index: usize) -> Result<Option<Real>, RowError> {
    match value {
        ValueView::Null => Ok(None),
        ValueView::Real(bits) => Ok(Some(Real::Double(bits))),
        ValueView::Integer(i) => Ok(Some(Real::Whole(i))),
        _ => Err(RowError::WrongType { index, found: kind_of(value) }),
    }
}

/// A flag: an integer, true unless it is zero.
pub open spec fn flag_of(value: ValueView, index: usize) -> Result<bool, RowError> {
    match value {
        ValueView::Integer(i) => Ok(i != 0),
        _ => Err(RowError::WrongType { index, found: kind_of(value) }),
    }
}

/// A list field: whatever is not the JSON text of a list of strings reads as
/// the empty list.
pub open spec fn list_of(value: ValueView) -> Seq<Seq<char>> {
    match value {
        ValueView::Text(bytes) => match text_of_bytes(bytes) {
            Some(text) => list_of_text(text),
            None => Seq::empty(),
        },
        _ => Seq::empty(),
    }
}

// ---------------------------------------------------------------------------
// Reading a column of a row, by position
// ---------------------------------------------------------------------------

/// The required text at `index` of `row`.
pub open spec fn text_at(row: Seq<ValueView>, index: usize) -> Result<Seq<char>, RowError> {
    if index < row.len() {
        text_of(row[index as int], index)
    } else {
        Err(RowError::MissingColumn { index })
    }
}

/// The optional text at `index` of `row`.
pub open spec fn opt_text_at(row: Seq<ValueView>, index: usize) -> Result<
    Option<Seq<char>>,
    RowError,
> {
    if index < row.len() {
        opt_text_of(row[index as int], index)
    } else {
        Err(RowError::MissingColumn { index })
    }
}

/// The optional whole number at `index` of `row`.
pub open spec fn opt_int_at(row: Seq<ValueView>, index: usize) -> Result<Option<i32>, RowError> {
    if index < row.len() {
        opt_int_of(row[index as int], index)
    } else {
        Err(RowError::MissingColumn { index })
    }
}

/// The optional real number at `index` of `row`.
pub open spec fn opt_real_at(row: Seq<ValueView>, index: usize) -> Result<Option<Real>, RowError> {
    if index < row.len() {
        opt_real_of(row[index as int], index)
    } else {
        Err(RowError::MissingColumn { index })
    }
}

/// The flag at `index` of `row`.
pub open spec fn flag_at(row: Seq<ValueView>, index: usize) -> Result<bool, RowError> {
    if index < row.len() {
        flag_of(row[index as int], index)
    } else {
        Err(RowError::MissingColumn { index })
    }
}

/// The list at `index` of `row`. Only a row that is too short fails here.
pub open spec fn list_at(row: Seq<ValueView>, index: usize) -> Result<Seq<Seq<char>>, RowError> {
    if index < row.len() {
        Ok(list_of(row[index as int]))
    } else {
        Err(RowError::MissingColumn { index })
    }
}

/// Reads the required text at `index`.
pub fn get_text(row: &Vec<SqlValue>, index: usize) -> (r: Result<String, RowError>)
    ensures
        match r {
            Ok(text) => text_at(row.deep_view(), index) == Ok::<Seq<char>, RowError>(text@),
            Err(e) => text_at(row.deep_view(), index) == Err::<Seq<char>, RowError>(e),
        },
{
    if index >= row.len() {
        return Err(RowError::MissingColumn { index });
    }
    match &row[index] {
        SqlValue::Text(bytes) => match decode_text(bytes) {
            Some(text) => Ok(text),
            None => Err(RowError::InvalidText { index }),
        },
        other => Err(RowError::WrongType { index, found: other.kind() }),
    }
}

/// Reads the optional text at `index`.
pub fn get_opt_text(row: &Vec<SqlValue>, index: usize) -> (r: Result<Option<String>, RowError>)
    ensures
        match r {
            Ok(text) => opt_text_at(row.deep_view(), index) == Ok::<Option<Seq<char>>, RowError>(
                text.deep_view(),
            ),
            Err(e) => opt_text_at(row.deep_view(), index) == Err::<Option<Seq<char>>, RowError>(e),
        },
{
    if index >= row.len() {
        return Err(RowError::MissingColumn { index });
    }
    match &row[index] {
        SqlValue::Null => Ok(None),
        _ => match get_text(row, index) {
            Ok(text) => Ok(Some(text)),
            Err(e) => Err(e),
        },
    }
}

/// Reads the optional whole number at `index`.
pub fn get_opt_int(row: &Vec<SqlValue>, index: usize) -> (r: Result<Option<i32>, RowError>)
    ensures
        r == opt_int_at(row.deep_view(), index),
{
    if index >= row.len() {
        return Err(RowError::MissingColumn { index });
    }
    match &row[index] {
        SqlValue::Null => Ok(None),
        SqlValue::Integer(i) => {
            let i: i64 = *i;
            if -2147483648 <= i && i <= 2147483647 {
                Ok(Some(i as i32))
            } else {
                Err(RowError::OutOfRange { index, value: i })
            }
        },
        other => Err(RowError::WrongType { index, found: other.kind() }),
    }
}

/// Reads the optional real number at `index`.
pub fn get_opt_real(row: &Vec<SqlValue>, index: usize) -> (r: Result<Option<Real>, RowError>)
    ensures
        r == opt_real_at(row.deep_view(), index),
{
    if index >= row.len() {
        return Err(RowError::MissingColumn { index });
    }
    match &row[index] {
        SqlValue::Null => Ok(None),
        SqlValue::Real(bits) => Ok(Some(Real::Double(*bits))),
        SqlValue::Integer(i) => Ok(Some(Real::Whole(*i))),
        other => Err(RowError::WrongType { index, found: other.kind() }),
    }
}

/// Reads the flag at `index`.
pub fn get_flag(row: &Vec<SqlValue>, index: usize) -> (r: Result<bool, RowError>)
    ensures
        r == flag_at(row.deep_view(), index),
{
    if index >= row.len() {
        return Err(RowError::MissingColumn { index });
    }
    match &row[index] {
        SqlValue::Integer(i) => Ok(*i != 0),
        other => Err(RowError::WrongType { index, found: other.kind() }),
    }
}

/// Reads the list at `index`, leniently.
pub fn get_list(row: &Vec<SqlValue>, index: usize) -> (r: Result<Vec<String>, RowError>)
    ensures
        match r {
            Ok(list) => list_at(row.deep_view(), index) == Ok::<Seq<Seq<char>>, RowError>(
                list.deep_view(),
            ),
            Err(e) => list_at(row.deep_view(), index) == Err::<Seq<Seq<char>>, RowError>(e),
        },
{
    if index >= row.len() {
        return Err(RowError::MissingColumn { index });
    }
    match &row[index] {
        SqlValue::Text(bytes) => match decode_text(bytes) {
            Some(text) => Ok(decode_list(text.as_str())),
            None => Ok(unwrap_list(None)),
        },
        _ => Ok(unwrap_list(None)),
    }
}

// ---------------------------------------------------------------------------
// Writing: what each kind of field is stored as
// ---------------------------------------------------------------------------

/// A text field is stored as its UTF-8 bytes.
pub open spec fn text_cell(text: Seq<char>) -> ValueView {
    ValueView::Text(vstd::utf8::encode_utf8(text))
}

/// An optional text field is stored as NULL or as its text.
pub open spec fn opt_text_cell(text: Option<Seq<char>>) -> ValueView {
    match text {
        Some(t) => text_cell(t),
        None => ValueView::Null,
    }
}

/// An optional whole number is stored as NULL or as an integer.
pub open spec fn opt_int_cell(number: Option<i32>) -> ValueView {
    match number {
        Some(i) => ValueView::Integer(i as i64),
        None => ValueView::Null,
    }
}

/// An optional real number is stored as NULL or as it is.
pub open spec fn opt_real_cell(number: Option<Real>) -> ValueView {
    match number {
        Some(Real::Double(bits)) => ValueView::Real(bits),
        Some(Real::Whole(i)) => ValueView::Integer(i),
        None => ValueView::Null,
    }
}

/// A flag is stored as the integer 1 or 0.
pub open spec fn flag_cell(flag: bool) -> ValueView {
    ValueView::Integer(if flag { 1i64 } else { 0i64 })
}

/// A list is stored as the text of its JSON array.
pub open spec fn list_cell(list: Seq<Seq<char>>) -> ValueView {
    text_cell(json_text(list))
}

/// The value that stores a text field.
pub fn text_value(text: &String) -> (value: SqlValue)
    ensures
        value@ == text_cell(text@),
{
    SqlValue::Text(encode_text(text.as_str()))
}

/// The value that stores an optional text field.
pub fn opt_text_value(text: &Option<String>) -> (value: SqlValue)
    ensures
        value@ == opt_text_cell(text.deep_view()),
{
    match text {
        Some(t) => text_value(t),
        None => SqlValue::Null,
    }
}

/// The value that stores an optional whole number.
pub fn opt_int_value(number: Option<i32>) -> (value: SqlValue)
    ensures
        value@ == opt_int_cell(number),
{
    match number {
        Some(i) => SqlValue::Integer(i as i64),
        None => SqlValue::Null,
    }
}

/// The value that stores an optional real number.
pub fn opt_real_value(number: Option<Real>) -> (value: SqlValue)
    ensures
        value@ == opt_real_cell(number),
{
    match number {
        Some(Real::Double(bits)) => SqlValue::Real(bits),
        Some(Real::Whole(i)) => SqlValue::Integer(i),
        None => SqlValue::Null,
    }
}

/// The value that stores a flag.
pub fn flag_value(flag: bool) -> (value: SqlValue)
    ensures
        value@ == flag_cell(flag),
{
    if flag {
        SqlValue::Integer(1)
    } else {
        SqlValue::Integer(0)
    }
}

/// The value that stores a list, and with it the fact that the list is read
/// back from that value unchanged.
pub fn list_value(list: &Vec<String>) -> (value: SqlValue)
    ensures
        value@ == list_cell(list.deep_view()),
        list_of(value@) == list.deep_view(),
{
    let text = encode_list(list);
    SqlValue::Text(encode_text(text.as_str()))
}

// ---------------------------------------------------------------------------
// Nothing is lost: what is written is what is read
// ---------------------------------------------------------------------------

/// A text field reads back as the text that was stored.
pub proof fn lemma_text_round_trip(text: Seq<char>, index: usize)
    ensures
        text_of(text_cell(text), index) == Ok::<Seq<char>, RowError>(text),
{
    vstd::utf8::encode_utf8_valid_utf8(text);
    vstd::utf8::encode_utf8_decode_utf8(text);
}

/// An optional text field reads back as it was stored. Absent, and only
/// absent, is stored as NULL: the empty text is stored as text.
pub proof fn lemma_opt_text_round_trip(text: Option<Seq<char>>, index: usize)
    ensures
        opt_text_of(opt_text_cell(text), index) == Ok::<Option<Seq<char>>, RowError>(text),
        text is None <==> opt_text_cell(text) == ValueView::Null,
{
    if let Some(t) = text {
        lemma_text_round_trip(t, index);
    }
}

/// An optional whole number reads back as it was stored. Absent, and only
/// absent, is stored as NULL: zero is stored as a number.
pub proof fn lemma_opt_int_round_trip(number: Option<i32>, index: usize)
    ensures
        opt_int_of(opt_int_cell(number), index) == Ok::<Option<i32>, RowError>(number),
        number is None <==> opt_int_cell(number) == ValueView::Null,
{
}

/// An optional real number reads back as it was stored. Absent, and only
/// absent, is stored as NULL: zero is stored as a number.
pub proof fn lemma_opt_real_round_trip(number: Option<Real>, index: usize)
    ensures
        opt_real_of(opt_real_cell(number), index) == Ok::<Option<Real>, RowError>(number),
        number is None <==> opt_real_cell(number) == ValueView::Null,
{
}

/// A flag reads back as it was stored.
pub proof fn lemma_flag_round_trip(flag: bool, index: usize)
    ensures
        flag_of(flag_cell(flag), index) == Ok::<bool, RowError>(flag),
{
}

} // verus!

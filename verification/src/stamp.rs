//! What creation assigns to an entity: a fresh identifier and the time.

use vstd::prelude::*;

verus! {

/// A lower-case hexadecimal digit.
pub open spec fn is_hex_digit(c: char) -> bool {
    ('0' <= c && c <= '9') || ('a' <= c && c <= 'f')
}

/// Whether `i` is one of the four places at which an identifier has a hyphen.
pub open spec fn is_hyphen_place(i: int) -> bool {
    i == 8 || i == 13 || i == 18 || i == 23
}

/// The shape of an identifier: a version 4 UUID in its usual spelling,
/// `xxxxxxxx-xxxx-4xxx-yxxx-xxxxxxxxxxxx`, in lower-case hexadecimal digits,
/// where `y` is one of `8`, `9`, `a`, `b`.
pub open spec fn is_identifier(id: Seq<char>) -> bool {
    &&& id.len() == 36
    &&& forall|i: int|
        0 <= i < 36 ==> if is_hyphen_place(i) {
            #[trigger] id[i] == '-'
        } else {
            is_hex_digit(id[i])
        }
    &&& id[14] == '4'
    &&& (id[19] == '8' || id[19] == '9' || id[19] == 'a' || id[19] == 'b')
}

/// A decimal digit.
pub open spec fn is_digit(c: char) -> bool {
    '0' <= c && c <= '9'
}

/// Whether `s` is made of decimal digits only.
pub open spec fn all_digits(s: Seq<char>) -> bool {
    forall|i: int| 0 <= i < s.len() ==> is_digit(#[trigger] s[i])
}

/// The year of a timestamp: four digits, or, from the year 10000 on, a plus
/// sign and five digits or more.
pub open spec fn is_year(s: Seq<char>) -> bool {
    ||| s.len() == 4 && all_digits(s)
    ||| s.len() >= 6 && s[0] == '+' && all_digits(s.subrange(1, s.len() as int))
}

/// What follows the year: `-MM-DDTHH:MM:SS`, two digits for each field.
pub open spec fn is_day_and_time(s: Seq<char>) -> bool {
    &&& s.len() == 15
    &&& s[0] == '-'
    &&& is_digit(s[1])
    &&& is_digit(s[2])
    &&& s[3] == '-'
    &&& is_digit(s[4])
    &&& is_digit(s[5])
    &&& s[6] == 'T'
    &&& is_digit(s[7])
    &&& is_digit(s[8])
    &&& s[9] == ':'
    &&& is_digit(s[10])
    &&& is_digit(s[11])
    &&& s[12] == ':'
    &&& is_digit(s[13])
    &&& is_digit(s[14])
}

/// The fraction of a second: nothing, or a point and three, six or nine
/// digits.
pub open spec fn is_fraction(s: Seq<char>) -> bool {
    ||| s.len() == 0
    ||| (s.len() == 4 || s.len() == 7 || s.len() == 10) && s[0] == '.' && all_digits(
        s.subrange(1, s.len() as int),
    )
}

/// The six characters that end a timestamp in UTC.
pub open spec fn utc_offset() -> Seq<char> {
    seq!['+', '0', '0', ':', '0', '0']
}

/// Whether `stamp` is a timestamp whose year takes `year` characters and
/// whose fraction of a second takes `fraction` characters.
pub open spec fn is_utc_timestamp_split(stamp: Seq<char>, year: int, fraction: int) -> bool {
    &&& 0 <= year
    &&& 0 <= fraction
    &&& stamp.len() == year + 15 + fraction + 6
    &&& is_year(stamp.subrange(0, year))
    &&& is_day_and_time(stamp.subrange(year, year + 15))
    &&& is_fraction(stamp.subrange(year + 15, year + 15 + fraction))
    &&& stamp.subrange(year + 15 + fraction, stamp.len() as int) == utc_offset()
}

/// The shape of a timestamp: date and time of day in UTC as ISO-8601 and
/// RFC 3339 spell them, such as `2024-03-01T10:00:00.250+00:00`.
pub open spec fn is_utc_timestamp(stamp: Seq<char>) -> bool {
    exists|year: int, fraction: int| is_utc_timestamp_split(stamp, year, fraction)
}

/// A timestamp has at least the 25 characters of `YYYY-MM-DDTHH:MM:SS+00:00`
/// and ends in the offset of UTC.
pub proof fn lemma_timestamp_ends_in_utc_offset(stamp: Seq<char>)
    requires
        is_utc_timestamp(stamp),
    ensures
        stamp.len() >= 25,
        stamp.subrange(stamp.len() - 6, stamp.len() as int) == utc_offset(),
{
    let (year, fraction) = choose|year: int, fraction: int|
        is_utc_timestamp_split(stamp, year, fraction);
    assert(stamp.subrange(0, year).len() == year);
}

/// Draws a fresh identifier.
///
/// Calls `uuid::Uuid::new_v4` and spells the result with `to_string`.
/// Trusted: whatever was drawn, the text has the shape of a version 4 UUID.
/// Two calls may well differ; that they always do is a matter of chance and
/// is not claimed. The call panics where the system has no random bytes to
/// give.
#[verifier::external_body]
pub(crate) fn random_identifier() -> (id: String)
    ensures
        is_identifier(id@),
{
    uuid::Uuid::new_v4().to_string()
}

/// Reads the clock.
///
/// Calls `chrono::Utc::now` and spells the result with `to_rfc3339`.
/// Trusted: whatever the time, the text is the year, `-MM-DDTHH:MM:SS`, the
/// fraction of the second where it is not zero, and the offset `+00:00`. The
/// call panics where the system clock stands before 1970.
#[verifier::external_body]
pub(crate) fn utc_now() -> (stamp: String)
    ensures
        is_utc_timestamp(stamp@),
{
    chrono::Utc::now().to_rfc3339()
}

} // verus!

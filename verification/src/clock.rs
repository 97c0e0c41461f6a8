use vstd::prelude::*;

verus! {

/// A decimal digit, `0` to `9`.
pub open spec fn is_ascii_digit(c: char) -> bool {
    '0' <= c <= '9'
}

/// The shape of a UTC instant written with the pattern
/// `%Y-%m-%dT%H:%M:%S%.3fZ`: a year of at least four digits (with a sign
/// before it when it lies outside 0 to 9999), then `-MM-DDTHH:MM:SS.mmmZ`
/// with two digits for each field and three for the milliseconds.
pub open spec fn is_millis_utc_text(s: Seq<char>) -> bool {
    let n = s.len() as int;
    let y = n - 20;
    &&& n >= 24
    &&& is_ascii_digit(s[0]) || s[0] == '+' || s[0] == '-'
    &&& forall|i: int| 1 <= i < y ==> is_ascii_digit(#[trigger] s[i])
    &&& s[y] == '-'
    &&& is_ascii_digit(s[y + 1]) && is_ascii_digit(s[y + 2])
    &&& s[y + 3] == '-'
    &&& is_ascii_digit(s[y + 4]) && is_ascii_digit(s[y + 5])
    &&& s[y + 6] == 'T'
    &&& is_ascii_digit(s[y + 7]) && is_ascii_digit(s[y + 8])
    &&& s[y + 9] == ':'
    &&& is_ascii_digit(s[y + 10]) && is_ascii_digit(s[y + 11])
    &&& s[y + 12] == ':'
    &&& is_ascii_digit(s[y + 13]) && is_ascii_digit(s[y + 14])
    &&& s[y + 15] == '.'
    &&& is_ascii_digit(s[y + 16]) && is_ascii_digit(s[y + 17]) && is_ascii_digit(s[y + 18])
    &&& s[y + 19] == 'Z'
}

/// Calls `chrono::Utc::now` and renders the instant with `DateTime::format`
/// and the pattern `%Y-%m-%dT%H:%M:%S%.3fZ`. The instant depends on the
/// clock, so only what holds of every instant is stated: the text has the
/// pattern's fixed shape (chrono writes the year with at least four digits,
/// each other field with two, the milliseconds with three).
#[verifier::external_body]
fn utc_now_millis_text() -> (s: String)
    ensures
        is_millis_utc_text(s@),
{
    chrono::Utc::now().format("%Y-%m-%dT%H:%M:%S%.3fZ").to_string()
}

/// The time of a change, as the kanban records store it: the current UTC
/// instant to the millisecond, as `YYYY-MM-DDTHH:MM:SS.mmmZ`.
pub fn mutation_timestamp() -> (s: String)
    ensures
        is_millis_utc_text(s@),
{
    utc_now_millis_text()
}

} // verus!

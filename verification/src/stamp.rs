//! Where a new note gets what no caller supplies: a fresh identifier and
//! the current local time. Both come from outside this library, and what
//! is stated of them here is taken on trust.

use vstd::prelude::*;

verus! {

/// The pattern by which the time of writing is rendered: year, month and
/// day, a space, then hour, minute and second.
pub open spec fn date_pattern() -> Seq<char> {
    "%Y-%m-%d %H:%M:%S"@
}

/// A digit, or a letter from `a` to `f`.
pub open spec fn is_lower_hex(c: char) -> bool {
    ('0' <= c && c <= '9') || ('a' <= c && c <= 'f')
}

/// The text of a random identifier: 36 characters, hyphens after the 8th,
/// 12th, 16th and 20th digit, lower-case hexadecimal digits elsewhere; the
/// 13th digit is `4` and the 17th is one of `8`, `9`, `a`, `b`.
pub open spec fn is_random_id(s: Seq<char>) -> bool {
    &&& s.len() == 36
    &&& forall|i: int|
        0 <= i < 36 ==> if i == 8 || i == 13 || i == 18 || i == 23 {
            s[i] == '-'
        } else {
            is_lower_hex(#[trigger] s[i])
        }
    &&& s[14] == '4'
    &&& (s[19] == '8' || s[19] == '9' || s[19] == 'a' || s[19] == 'b')
}

/// Calls `uuid::Uuid::new_v4` and renders the result with its `Display`
/// form.
///
/// Trusted: the text is the hyphenated lower-case form of a version 4
/// identifier. Which identifier is drawn is left open; two calls need
/// not differ as far as this contract goes. The call panics if the
/// operating system hands out no random bytes.
#[verifier::external_body]
pub(crate) fn random_id_text() -> (id: String)
    ensures
        is_random_id(id@),
{
    uuid::Uuid::new_v4().to_string()
}

/// Calls `chrono::Local::now` and renders the result with
/// `DateTime::format` under the given pattern, which is this library's.
/// Trusted: the text has the form [`is_time_text`] describes; which time
/// it shows depends on the clock and the time zone. The call panics if the
/// clock stands before 1970 or beyond the years that `chrono` can hold.
#[verifier::external_body]
pub(crate) fn local_time_text(pattern: &str) -> (text: String)
    requires
        pattern@ == date_pattern(),
    ensures
        is_time_text(text@),
{
    chrono::Local::now().format(pattern).to_string()
}

/// The current local time, rendered under [`date_pattern`]: for the years
/// up to 9999 this reads `YYYY-MM-DD HH:MM:SS`.
pub(crate) fn get_current_date() -> (date: String)
    ensures
        is_time_text(date@),
{
    local_time_text("%Y-%m-%d %H:%M:%S")
}

/// A decimal digit.
pub open spec fn is_digit(c: char) -> bool {
    '0' <= c && c <= '9'
}

/// The text of a year: four digits for the years 0 to 9999, and for any
/// other year a sign followed by at least four digits.
pub open spec fn is_year_text(s: Seq<char>) -> bool {
    ||| s.len() == 4 && forall|i: int| 0 <= i < 4 ==> is_digit(#[trigger] s[i])
    ||| s.len() >= 5 && (s[0] == '+' || s[0] == '-') && forall|i: int|
        1 <= i < s.len() ==> is_digit(#[trigger] s[i])
}

/// What follows the year in the text of a time: a hyphen and two digits
/// for the month, a hyphen and two digits for the day, a space, and two
/// digits each for hour, minute and second with colons between them.
pub open spec fn is_day_and_time_text(s: Seq<char>) -> bool {
    &&& s.len() == 15
    &&& s[0] == '-' && is_digit(s[1]) && is_digit(s[2])
    &&& s[3] == '-' && is_digit(s[4]) && is_digit(s[5])
    &&& s[6] == ' ' && is_digit(s[7]) && is_digit(s[8])
    &&& s[9] == ':' && is_digit(s[10]) && is_digit(s[11])
    &&& s[12] == ':' && is_digit(s[13]) && is_digit(s[14])
}

/// The text of a time under [`date_pattern`]: the year, then month, day,
/// hour, minute and second at two digits each. For the years 0 to 9999
/// this is `YYYY-MM-DD HH:MM:SS`, of 19 characters.
pub open spec fn is_time_text(s: Seq<char>) -> bool {
    &&& s.len() >= 19
    &&& is_year_text(s.subrange(0, s.len() - 15))
    &&& is_day_and_time_text(s.subrange(s.len() - 15, s.len() as int))
}

} // verus!

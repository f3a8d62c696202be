//! The time of day, as records carry it.

use crate::text::{all_digits, digits_value};
use vstd::prelude::*;

verus! {

/// A year: four digits, or five or six after a plus sign.
pub open spec fn is_year(text: Seq<char>) -> bool {
    if text.len() > 0 && text[0] == '+' {
        all_digits(text.skip(1)) && 5 <= text.skip(1).len() <= 6
    } else {
        all_digits(text) && text.len() == 4
    }
}

/// Two digits, of a number in a range.
pub open spec fn is_two_digits(text: Seq<char>, least: nat, most: nat) -> bool {
    all_digits(text) && text.len() == 2 && least <= digits_value(text) <= most
}

/// What follows the year up to the second: `-`, the month, `-`, the day, `T`, and the time of day
/// with a colon between each two of its parts.
pub open spec fn is_day_and_time(text: Seq<char>) -> bool {
    &&& text.len() == 15
    &&& text[0] == '-'
    &&& is_two_digits(text.subrange(1, 3), 1, 12)
    &&& text[3] == '-'
    &&& is_two_digits(text.subrange(4, 6), 1, 31)
    &&& text[6] == 'T'
    &&& is_two_digits(text.subrange(7, 9), 0, 23)
    &&& text[9] == ':'
    &&& is_two_digits(text.subrange(10, 12), 0, 59)
    &&& text[12] == ':'
    &&& is_two_digits(text.subrange(13, 15), 0, 59)
}

/// A fraction of a second: nothing, or a point and three, six or nine digits.
pub open spec fn is_fraction(text: Seq<char>) -> bool {
    text.len() > 0 ==> {
        &&& text[0] == '.'
        &&& all_digits(text.skip(1))
        &&& text.skip(1).len() == 3 || text.skip(1).len() == 6 || text.skip(1).len() == 9
    }
}

/// A date and a time of day in the form of RFC 3339, with the offset of universal time.
pub open spec fn is_utc_timestamp(text: Seq<char>) -> bool {
    exists|year: Seq<char>, day_and_time: Seq<char>, fraction: Seq<char>|
        #![trigger is_year(year), is_day_and_time(day_and_time), is_fraction(fraction)]
        is_year(year) && is_day_and_time(day_and_time) && is_fraction(fraction) && text == year
            + day_and_time + fraction + "+00:00"@
}

/// `chrono::Utc::now().to_rfc3339()`: the present time in the form of RFC 3339, to the second or
/// to thousandths, millionths or billionths of it, and with the offset `+00:00` of universal time.
/// A year beyond 9999 has a plus sign before it. Which time it is, nothing here says. The call panics
/// where the system clock stands before 1970 or beyond the last year that `chrono` knows.
#[verifier::external_body]
pub(crate) fn utc_timestamp() -> (text: String)
    ensures
        is_utc_timestamp(text@),
{
    chrono::Utc::now().to_rfc3339()
}

} // verus!

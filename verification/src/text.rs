//! Human-readable text for the tray menu and the frontend: decimal rendering
//! of the small counters, and the fuzzy seconds-to-minutes wording.

use vstd::prelude::*;
use vstd::string::StringExecFns;

verus! {

/// The character for one decimal digit.
pub open spec fn dec_digit(d: int) -> char {
    if d == 0 {
        '0'
    } else if d == 1 {
        '1'
    } else if d == 2 {
        '2'
    } else if d == 3 {
        '3'
    } else if d == 4 {
        '4'
    } else if d == 5 {
        '5'
    } else if d == 6 {
        '6'
    } else if d == 7 {
        '7'
    } else if d == 8 {
        '8'
    } else {
        '9'
    }
}

/// The decimal digits of a non-negative number, most significant first.
pub open spec fn dec_str(n: int) -> Seq<char>
    recommends
        n >= 0,
    decreases n,
{
    if n < 10 {
        seq![dec_digit(n)]
    } else {
        dec_str(n / 10).push(dec_digit(n % 10))
    }
}

/// Relies on std's `Display` for `u16` (via `format!`): the result is the
/// decimal digits of `n`, most significant first, with no sign and no leading
/// zeros.
#[verifier::external_body]
pub fn u16_to_string(n: u16) -> (r: String)
    ensures
        r@ == dec_str(n as int),
{
    format!("{n}")
}

/// The fuzzy wording for `sec` seconds: "less than 1 minute" up to a minute,
/// else the number of minutes, rounded up.
pub open spec fn sec_to_min_spec(sec: u16) -> Seq<char> {
    if sec <= 60 {
        "less than 1 minute"@
    } else {
        dec_str((sec + 59) / 60) + " minutes"@
    }
}

/// Fuzzy second-to-minutes conversion.
pub fn format_sec_to_min(sec: u16) -> (r: String)
    ensures
        r@ == sec_to_min_spec(sec),
{
    if sec <= 60 {
        String::from_str("less than 1 minute")
    } else {
        let minutes: u32 = (sec as u32 + 59) / 60;
        let text = u16_to_string(minutes as u16);
        text.concat(" minutes")
    }
}

/// The tray/frontend countdown title for `left` seconds until the next break.
pub open spec fn next_break_title_spec(left: u16) -> Seq<char> {
    "next break in "@ + sec_to_min_spec(left)
}

/// Create a string `next break in x`, for frontend and systemtray.
pub fn next_break_title(left: u16) -> (r: String)
    ensures
        r@ == next_break_title_spec(left),
{
    let prefix = String::from_str("next break in ");
    let rest = format_sec_to_min(left);
    prefix.concat(rest.as_str())
}

/// The tray/frontend title for `sessions_left` work sessions until the next
/// long break.
pub open spec fn sessions_before_long_title_spec(sessions_left: u8) -> Seq<char> {
    if sessions_left >= 2 {
        "next long break after "@ + dec_str(sessions_left as int) + " sessions"@
    } else {
        "next long break after current session"@
    }
}

/// Create a string `next long break after x sessions`, for frontend and
/// systemtray.
pub fn sessions_before_long_title(sessions_left: u8) -> (r: String)
    ensures
        r@ == sessions_before_long_title_spec(sessions_left),
{
    if sessions_left >= 2 {
        let prefix = String::from_str("next long break after ");
        let count = u16_to_string(sessions_left as u16);
        let with_count = prefix.concat(count.as_str());
        let r = with_count.concat(" sessions");
        proof {
            assert(r@ =~= sessions_before_long_title_spec(sessions_left));
        }
        r
    } else {
        String::from_str("next long break after current session")
    }
}

} // verus!

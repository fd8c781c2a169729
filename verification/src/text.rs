//! Rendering the numbers and durations that appear in progress reports.

use vstd::prelude::*;
use vstd::string::StringExecFns;

verus! {

/// The character for one decimal digit.
pub open spec fn digit_char(d: u64) -> char
    recommends
        d < 10,
{
    if d == 0 {
        '0'
    } else if d == 1 {
        '1'
    } else if d == 2 {
        '2'
    } else if d == 3 {
        '3'
    } else if d == 4 {
        '4'
    } else if d == 5 {
        '5'
    } else if d == 6 {
        '6'
    } else if d == 7 {
        '7'
    } else if d == 8 {
        '8'
    } else {
        '9'
    }
}

/// The decimal digits of `x`, most significant first, with no leading
/// zero except for `x == 0` itself.
pub open spec fn decimal_spec(x: u64) -> Seq<char>
    decreases x,
{
    if x < 10 {
        seq![digit_char(x)]
    } else {
        decimal_spec(x / 10).push(digit_char(x % 10))
    }
}

/// The one-character string for a decimal digit.
fn digit_str(d: u64) -> (r: &'static str)
    requires
        d < 10,
    ensures
        r@ == seq![digit_char(d)],
{
    proof {
        reveal_strlit("0");
        reveal_strlit("1");
        reveal_strlit("2");
        reveal_strlit("3");
        reveal_strlit("4");
        reveal_strlit("5");
        reveal_strlit("6");
        reveal_strlit("7");
        reveal_strlit("8");
        reveal_strlit("9");
    }
    if d == 0 {
        "0"
    } else if d == 1 {
        "1"
    } else if d == 2 {
        "2"
    } else if d == 3 {
        "3"
    } else if d == 4 {
        "4"
    } else if d == 5 {
        "5"
    } else if d == 6 {
        "6"
    } else if d == 7 {
        "7"
    } else if d == 8 {
        "8"
    } else {
        "9"
    }
}

/// Render `x` in decimal.
pub fn decimal_string(x: u64) -> (r: String)
    ensures
        r@ == decimal_spec(x),
    decreases x,
{
    if x < 10 {
        digit_str(x).to_owned()
    } else {
        proof {
            assert(x / 10 < x) by (nonlinear_arith)
                requires
                    x >= 10,
            ;
        }
        let mut r = decimal_string(x / 10);
        r.append(digit_str(x % 10));
        r
    }
}

/// What a whole number of seconds looks like in human units (years down
/// to seconds): the rendering depends on the number of seconds alone.
pub uninterp spec fn human_duration_of(secs: u64) -> Seq<char>;

/// Relies on humantime::format_duration: its display renders a duration
/// in human units, deterministically from the duration alone, and a zero
/// duration renders as `0s`.
#[verifier::external_body]
pub(crate) fn format_seconds(secs: u64) -> (r: String)
    ensures
        r@ == human_duration_of(secs),
        secs == 0 ==> r@ == "0s"@,
{
    format!("{}", humantime::format_duration(std::time::Duration::from_secs(secs)))
}

} // verus!

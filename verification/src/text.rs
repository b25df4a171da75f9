//! Verified building of the message strings that validation results carry.
//!
//! Every message is specified at the character level; the builders return
//! strings whose views equal the specified sequences exactly.

use vstd::prelude::*;
use vstd::string::StringExecFns;

verus! {

/// The decimal digit character for `d`, a value between 0 and 9.
pub open spec fn spec_digit(d: int) -> Seq<char> {
    if d == 0 { "0"@ }
    else if d == 1 { "1"@ }
    else if d == 2 { "2"@ }
    else if d == 3 { "3"@ }
    else if d == 4 { "4"@ }
    else if d == 5 { "5"@ }
    else if d == 6 { "6"@ }
    else if d == 7 { "7"@ }
    else if d == 8 { "8"@ }
    else { "9"@ }
}

/// The decimal notation of the non-negative integer `n`.
pub open spec fn spec_nat_str(n: int) -> Seq<char>
    decreases n via spec_nat_str_decreases
{
    if n < 10 {
        spec_digit(n)
    } else {
        spec_nat_str(n / 10) + spec_digit(n % 10)
    }
}

#[via_fn]
proof fn spec_nat_str_decreases(n: int) {
    if n >= 10 {
        assert(0 <= n / 10 < n) by (nonlinear_arith)
            requires n >= 10;
    }
}

/// The decimal notation of the integer `v`, with a leading minus sign when
/// it is negative.
pub open spec fn spec_i64_str(v: int) -> Seq<char> {
    if v < 0 {
        "-"@ + spec_nat_str(-v)
    } else {
        spec_nat_str(v)
    }
}

/// The one-character string slice for the digit `d`.
fn digit_str(d: u64) -> (r: &'static str)
    requires
        d < 10,
    ensures
        r@ == spec_digit(d as int),
{
    if d == 0 { "0" }
    else if d == 1 { "1" }
    else if d == 2 { "2" }
    else if d == 3 { "3" }
    else if d == 4 { "4" }
    else if d == 5 { "5" }
    else if d == 6 { "6" }
    else if d == 7 { "7" }
    else if d == 8 { "8" }
    else { "9" }
}

/// Append the decimal notation of `n` to `s`.
fn append_nat(s: &mut String, n: u64)
    ensures
        final(s)@ == old(s)@ + spec_nat_str(n as int),
    decreases n,
{
    if n < 10 {
        s.append(digit_str(n));
    } else {
        proof {
            assert(n / 10 < n && n / 10 >= 1) by (nonlinear_arith)
                requires n >= 10;
        }
        append_nat(s, n / 10);
        s.append(digit_str(n % 10));
    }
}

/// The decimal notation of `v` as a string.
pub fn i64_to_string(v: i64) -> (r: String)
    ensures
        r@ == spec_i64_str(v as int),
{
    if v >= 0 {
        let mut s = "".to_owned();
        append_nat(&mut s, v as u64);
        proof {
            assert(""@ + spec_nat_str(v as int) =~= spec_nat_str(v as int)) by {
                reveal_strlit("");
            }
        }
        s
    } else {
        let mut s = "-".to_owned();
        let magnitude: u64 = ((-(v + 1)) as u64) + 1;
        proof {
            assert(magnitude as int == -(v as int));
        }
        append_nat(&mut s, magnitude);
        s
    }
}

} // verus!

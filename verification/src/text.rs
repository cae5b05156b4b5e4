//! Decimal text of whole numbers.

use vstd::prelude::*;

verus! {

/// The character of a decimal digit `d` in 0..=9.
pub open spec fn digit_char(d: int) -> char {
    seq!['0', '1', '2', '3', '4', '5', '6', '7', '8', '9'][d]
}

/// The decimal digits of `n`, most significant first, without leading zeros.
pub open spec fn digits_of(n: nat) -> Seq<char>
    decreases n,
{
    if n < 10 {
        seq![digit_char(n as int)]
    } else {
        digits_of(n / 10).push(digit_char((n % 10) as int))
    }
}

/// The decimal text of `x`: its digits, behind a `-` when it is negative.
pub open spec fn decimal(x: int) -> Seq<char> {
    if x < 0 {
        seq!['-'] + digits_of((-x) as nat)
    } else {
        digits_of(x as nat)
    }
}

/// Calls `ToString::to_string` on an `i32`, which goes through its `Display`
/// impl. The claim: the text is the number in decimal, with a leading `-` for
/// a negative number and no leading zeros, as the documentation of the integer
/// `Display` impls gives it.
#[verifier::external_body]
pub(crate) fn i32_text(x: i32) -> (s: String)
    ensures
        s@ == decimal(x as int),
{
    x.to_string()
}

} // verus!

//! Numbers as decimal text.

use vstd::prelude::*;

verus! {

/// The decimal digit of a number below ten.
pub open spec fn decimal_digit(n: nat) -> char
    recommends
        n < 10,
{
    ('0' as u8 + n) as u8 as char
}

/// The decimal digits of a number, the highest first, without leading
/// zeros; a single zero for zero.
pub open spec fn decimal(n: nat) -> Seq<char>
    decreases n,
{
    if n < 10 {
        seq![decimal_digit(n)]
    } else {
        decimal(n / 10).push(decimal_digit(n % 10))
    }
}

/// `u64::to_string`: the number in decimal digits, the highest first,
/// without sign or leading zeros.
#[verifier::external_body]
pub(crate) fn u64_to_text(n: u64) -> (text: String)
    ensures
        text@ == decimal(n as nat),
{
    n.to_string()
}

} // verus!

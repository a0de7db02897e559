//! The SHA-512 digest and the upper-case hexadecimal text of bytes.

use sha2::Digest;
use vstd::prelude::*;

verus! {

/// The SHA-512 digest of a message.
pub uninterp spec fn sha512(data: Seq<u8>) -> Seq<u8>;

/// The upper-case hexadecimal digit of a number below sixteen.
pub open spec fn hex_digit(n: int) -> char
    recommends
        0 <= n < 16,
{
    if n < 10 {
        ('0' as u8 + n) as u8 as char
    } else {
        ('A' as u8 + (n - 10)) as u8 as char
    }
}

/// Two upper-case hexadecimal digits for every byte, the high one first.
pub open spec fn hex_upper(bytes: Seq<u8>) -> Seq<char> {
    Seq::new(
        2 * bytes.len(),
        |i: int|
            if i % 2 == 0 {
                hex_digit(bytes[i / 2] as int / 16)
            } else {
                hex_digit(bytes[i / 2] as int % 16)
            },
    )
}

/// `sha2::Sha512::digest`: the SHA-512 digest of the bytes, which is 64
/// bytes long whatever they are.
#[verifier::external_body]
pub(crate) fn sha512_digest(data: &[u8]) -> (digest: Vec<u8>)
    ensures
        digest@ == sha512(data@),
        digest@.len() == 64,
{
    sha2::Sha512::digest(data).to_vec()
}

/// `hex::encode_upper`: two upper-case hexadecimal digits for every byte,
/// the high one first.
#[verifier::external_body]
pub(crate) fn hex_encode_upper(data: &[u8]) -> (text: String)
    ensures
        text@ == hex_upper(data@),
{
    hex::encode_upper(data)
}

/// Distinct bytes have distinct hexadecimal texts.
pub proof fn hex_upper_injective(a: Seq<u8>, b: Seq<u8>)
    requires
        hex_upper(a) == hex_upper(b),
    ensures
        a == b,
{
    assert(a.len() == b.len()) by {
        assert(hex_upper(a).len() == 2 * a.len());
        assert(hex_upper(b).len() == 2 * b.len());
    }
    assert forall|i: int| 0 <= i < a.len() implies a[i] == b[i] by {
        let x = a[i];
        let y = b[i];
        assert(hex_upper(a)[2 * i] == hex_digit(x as int / 16));
        assert(hex_upper(b)[2 * i] == hex_digit(y as int / 16));
        assert(hex_upper(a)[2 * i + 1] == hex_digit(x as int % 16));
        assert(hex_upper(b)[2 * i + 1] == hex_digit(y as int % 16));
        hex_digit_injective(x as int / 16, y as int / 16);
        hex_digit_injective(x as int % 16, y as int % 16);
    }
    assert(a =~= b);
}

proof fn hex_digit_injective(m: int, n: int)
    requires
        0 <= m < 16,
        0 <= n < 16,
        hex_digit(m) == hex_digit(n),
    ensures
        m == n,
{
    assert(hex_digit(m) as u32 == if m < 10 { 48 + m } else { 55 + m });
    assert(hex_digit(n) as u32 == if n < 10 { 48 + n } else { 55 + n });
}

} // verus!

use vstd::prelude::*;
use vstd::utf8::{decode_utf8, valid_utf8};

verus! {

/// The bytes of a C string held in `bytes`: those before the first zero
/// byte, or all of them where there is none.
pub open spec fn c_string(bytes: Seq<u8>) -> Seq<u8>
    decreases bytes.len(),
{
    if bytes.len() == 0 || bytes[0] == 0 {
        Seq::empty()
    } else {
        seq![bytes[0]] + c_string(bytes.drop_first())
    }
}

/// A prefix without a zero byte is the start of the C string, and the rest
/// of the C string is the C string of what follows the prefix.
pub proof fn lemma_c_string_prefix(bytes: Seq<u8>, n: int)
    requires
        0 <= n <= bytes.len(),
        forall|i: int| 0 <= i < n ==> bytes[i] != 0,
    ensures
        c_string(bytes) == bytes.take(n) + c_string(bytes.skip(n)),
    decreases n,
{
    if n == 0 {
        assert(bytes.skip(0) == bytes);
        assert(bytes.take(0) + c_string(bytes) == c_string(bytes));
    } else {
        let rest = bytes.drop_first();
        assert forall|i: int| 0 <= i < n - 1 implies rest[i] != 0 by {
            assert(rest[i] == bytes[i + 1]);
        }
        lemma_c_string_prefix(rest, n - 1);
        assert(rest.skip(n - 1) == bytes.skip(n));
        assert(seq![bytes[0]] + rest.take(n - 1) == bytes.take(n));
        assert(c_string(bytes) == seq![bytes[0]] + (rest.take(n - 1) + c_string(rest.skip(n - 1))));
        assert(seq![bytes[0]] + (rest.take(n - 1) + c_string(rest.skip(n - 1)))
            == (seq![bytes[0]] + rest.take(n - 1)) + c_string(rest.skip(n - 1)));
    }
}

/// Copies the C string held in `bytes` into a vector of its own.
pub fn c_string_bytes(bytes: &[u8]) -> (out: Vec<u8>)
    ensures
        out@ == c_string(bytes@),
{
    let mut out: Vec<u8> = Vec::new();
    let mut i: usize = 0;
    while i < bytes.len() && bytes[i] != 0
        invariant
            i <= bytes.len(),
            out@ == bytes@.take(i as int),
            forall|j: int| 0 <= j < i ==> bytes@[j] != 0,
        decreases bytes.len() - i,
    {
        out.push(bytes[i]);
        i = i + 1;
        assert(out@ == bytes@.take(i as int));
    }
    proof {
        lemma_c_string_prefix(bytes@, i as int);
        assert(c_string(bytes@.skip(i as int)) == Seq::<u8>::empty());
        assert(bytes@.take(i as int) + Seq::<u8>::empty() == bytes@.take(i as int));
    }
    out
}

/// `String::from_utf8` of std: the text that `bytes` encode, exactly where
/// they are valid UTF-8, and nothing otherwise.
#[verifier::external_body]
pub(crate) fn string_from_utf8(bytes: Vec<u8>) -> (r: Option<String>)
    ensures
        r is Some <==> valid_utf8(bytes@),
        r matches Some(s) ==> s@ == decode_utf8(bytes@),
{
    match String::from_utf8(bytes) {
        Ok(s) => Some(s),
        Err(_) => None,
    }
}

/// The character that stands for the digit `d`.
pub open spec fn digit(d: nat) -> char
    recommends
        d < 10,
{
    (48 + d) as u8 as char
}

/// The number `n` written in decimal, without sign or leading zeros.
pub open spec fn decimal(n: nat) -> Seq<char>
    decreases n,
{
    if n < 10 {
        seq![digit(n)]
    } else {
        decimal(n / 10).push(digit(n % 10))
    }
}

/// `u32::to_string` of std: the number in decimal.
#[verifier::external_body]
pub(crate) fn u32_to_string(n: u32) -> (r: String)
    ensures
        r@ == decimal(n as nat),
{
    n.to_string()
}

} // verus!

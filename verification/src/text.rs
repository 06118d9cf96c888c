//! Small tools on text: the characters of a string as a vector, and strings
//! built character by character.

use vstd::prelude::*;
use vstd::utf8::{decode_utf8, encode_utf8, valid_utf8};

verus! {

/// The characters of `s`, in order.
pub fn chars_of(s: &str) -> (v: Vec<char>)
    ensures
        v@ == s@,
{
    let mut v: Vec<char> = Vec::new();
    for c in it: s.chars()
        invariant
            it.seq() == s@,
            v@ == s@.take(it.index() as int),
    {
        v.push(c);
        assert(s@.take(it.index() + 1) =~= s@.take(it.index() as int).push(c));
    }
    assert(s@.take(s@.len() as int) =~= s@);
    v
}

/// Tells whether two strings hold the same characters.
pub fn same_text(a: &str, b: &str) -> (same: bool)
    ensures
        same == (a@ == b@),
{
    let x = chars_of(a);
    let y = chars_of(b);
    if x.len() != y.len() {
        return false;
    }
    let mut i: usize = 0;
    while i < x.len()
        invariant
            x@ == a@,
            y@ == b@,
            x@.len() == y@.len(),
            i <= x@.len(),
            x@.take(i as int) == y@.take(i as int),
        decreases x@.len() - i,
    {
        if x[i] != y[i] {
            return false;
        }
        i = i + 1;
        assert(x@.take(i as int) =~= x@.take(i - 1).push(x@[i - 1]));
        assert(y@.take(i as int) =~= y@.take(i - 1).push(y@[i - 1]));
    }
    assert(x@.take(x@.len() as int) =~= x@);
    assert(y@.take(y@.len() as int) =~= y@);
    true
}

/// `String::push` appends the character to the end of the string and leaves
/// what was there as it stood.
pub assume_specification[ String::push ](s: &mut String, ch: char)
    ensures
        final(s)@ == old(s)@.push(ch),
;

/// The character that stands for a digit below ten.
pub open spec fn digit(d: nat) -> char
    recommends
        d < 10,
{
    (0x30 + d) as char
}

/// The decimal numeral of `n`, without sign or leading zeros.
pub open spec fn decimal(n: nat) -> Seq<char>
    decreases n,
{
    if n < 10 {
        seq![digit(n)]
    } else {
        decimal(n / 10).push(digit(n % 10))
    }
}

/// Appends the decimal numeral of `n` to `out`.
pub fn push_decimal(out: &mut String, n: u32)
    ensures
        final(out)@ == old(out)@ + decimal(n as nat),
    decreases n,
{
    if n >= 10 {
        push_decimal(out, n / 10);
    }
    let d: u8 = (n % 10) as u8;
    let c: char = (0x30u8 + d) as char;
    out.push(c);
    assert(out@ =~= old(out)@ + decimal(n as nat));
}

/// `std::str::from_utf8`, and `Utf8Error::valid_up_to` on its error: the
/// length of the longest prefix of `bytes` that is valid UTF-8, which is
/// the whole length where `from_utf8` accepts the bytes.
#[verifier::external_body]
pub(crate) fn utf8_valid_up_to(bytes: &[u8]) -> (n: usize)
    ensures
        n <= bytes@.len(),
        valid_utf8(bytes@.take(n as int)),
        forall|m: int| n < m <= bytes@.len() ==> !valid_utf8(#[trigger] bytes@.take(m)),
{
    match std::str::from_utf8(bytes) {
        Ok(_) => bytes.len(),
        Err(e) => e.valid_up_to(),
    }
}

/// `String::from_utf8`: a string exactly where the bytes are valid UTF-8,
/// and then one whose encoding is these bytes.
#[verifier::external_body]
pub(crate) fn string_from_utf8(bytes: Vec<u8>) -> (s: Option<String>)
    ensures
        s is Some <==> valid_utf8(bytes@),
        s matches Some(t) ==> encode_utf8(t@) == bytes@,
{
    String::from_utf8(bytes).ok()
}

/// The length of the longest prefix of `bytes`, of at most `n` bytes, that
/// is valid UTF-8.
pub open spec fn valid_up_to(bytes: Seq<u8>, n: nat) -> nat
    decreases n,
{
    if n == 0 || valid_utf8(bytes.take(n as int)) {
        n
    } else {
        valid_up_to(bytes, (n - 1) as nat)
    }
}

/// The longest prefix of `bytes` that is valid UTF-8.
pub open spec fn valid_prefix(bytes: Seq<u8>) -> Seq<u8> {
    bytes.take(valid_up_to(bytes, bytes.len()) as int)
}

/// The text that `bytes` encode up to the first byte that breaks UTF-8.
pub open spec fn text_prefix(bytes: Seq<u8>) -> Seq<char> {
    decode_utf8(valid_prefix(bytes))
}

/// A length whose prefix is valid, with no valid prefix above it up to `k`,
/// is the length that `valid_up_to` finds from `k`.
proof fn lemma_valid_up_to(bytes: Seq<u8>, n: nat, k: nat)
    requires
        n <= k <= bytes.len(),
        valid_utf8(bytes.take(n as int)),
        forall|m: int| n < m <= bytes.len() ==> !valid_utf8(#[trigger] bytes.take(m)),
    ensures
        valid_up_to(bytes, k) == n,
    decreases k,
{
    if k > n {
        lemma_valid_up_to(bytes, n, (k - 1) as nat);
    }
}

/// A whole sequence of valid UTF-8 is its own longest valid prefix.
pub proof fn lemma_valid_prefix_of_valid(bytes: Seq<u8>)
    requires
        valid_utf8(bytes),
    ensures
        valid_prefix(bytes) == bytes,
{
    assert(bytes.take(bytes.len() as int) =~= bytes);
}

/// Decodes `bytes` as UTF-8 and stops before the first byte that is not
/// part of a valid encoding: what stood before it is the result.
pub fn text_up_to_invalid(bytes: Vec<u8>) -> (s: String)
    ensures
        s@ == text_prefix(bytes@),
{
    let mut bytes = bytes;
    let ghost whole = bytes@;
    let n = utf8_valid_up_to(bytes.as_slice());
    proof {
        lemma_valid_up_to(whole, n as nat, whole.len());
    }
    bytes.truncate(n);
    assert(bytes@ =~= valid_prefix(whole));
    match string_from_utf8(bytes) {
        Some(s) => {
            proof {
                vstd::utf8::encode_utf8_decode_utf8(s@);
            }
            s
        },
        // The prefix is valid, so there is always a string.
        None => String::new(),
    }
}

} // verus!

//! Transcoding between standard text and the 8-bit character set of the
//! Commodore, byte by byte.

use vstd::prelude::*;
use bstr::{BStr, BString};
use crate::bytestring::{bstr_bytes, bstring_as_bstr, bstring_as_slice, bstring_bytes, bstring_push};
use crate::text::{text_prefix, text_up_to_invalid};

verus! {

/// The native code of a standard byte: upper-case letters move up by
/// 0x80, lower-case letters down by 0x20, the five codes from 0x7B up by
/// 0x60, and every other byte stays.
pub open spec fn native_of(a: u8) -> u8 {
    if 0x41 <= a <= 0x5A {
        (a + 0x80) as u8
    } else if 0x61 <= a <= 0x7A {
        (a - 0x20) as u8
    } else if 0x7B <= a <= 0x7F {
        (a + 0x60) as u8
    } else {
        a
    }
}

/// The standard byte of a native code: 0x61..=0x7A move down by 0x20,
/// 0x41..=0x5A up by 0x20, 0xC1..=0xDA down by 0x80, 0xDE down by 0x60,
/// and every other code stays.
pub open spec fn standard_of(p: u8) -> u8 {
    if 0x61 <= p <= 0x7A {
        (p - 0x20) as u8
    } else if 0x41 <= p <= 0x5A {
        (p + 0x20) as u8
    } else if 0xC1 <= p <= 0xDA {
        (p - 0x80) as u8
    } else if p == 0xDE {
        0x7E
    } else {
        p
    }
}

/// The standard bytes on which encoding and then decoding gives the byte
/// back.
pub open spec fn survives_encoding(a: u8) -> bool {
    &&& !(0xC1 <= a <= 0xDA)
    &&& a != 0xDE
    &&& a != 0x7B
    &&& a != 0x7C
    &&& a != 0x7D
    &&& a != 0x7F
}

/// The native codes on which decoding and then encoding gives the code
/// back.
pub open spec fn survives_decoding(p: u8) -> bool {
    &&& !(0x61 <= p <= 0x7A)
    &&& !(0x7B <= p <= 0x7F)
}

/// Encoding a standard byte and decoding the result gives the byte back
/// exactly on the bytes that `survives_encoding` admits, among them all
/// of ASCII but `{`, `|`, `}` and DEL.
pub proof fn lemma_encode_then_decode(a: u8)
    ensures
        standard_of(native_of(a)) == a <==> survives_encoding(a),
{
}

/// Decoding a native code and encoding the result gives the code back
/// exactly on the codes that `survives_decoding` admits.
pub proof fn lemma_decode_then_encode(p: u8)
    ensures
        native_of(standard_of(p)) == p <==> survives_decoding(p),
{
}

/// Encoding never yields a code in 0x61..=0x7F, and decoding never yields a
/// byte in 0xC1..=0xDA: the two maps are not inverse to each other.
pub proof fn lemma_ranges_left_out(b: u8)
    ensures
        !(0x61 <= native_of(b) <= 0x7F),
        !(0xC1 <= standard_of(b) <= 0xDA),
        standard_of(b) != 0xDE,
{
}

/// The byte that a character is cut down to before it is encoded: its
/// code point modulo 256.
pub open spec fn low_byte(c: char) -> u8 {
    (c as u32 % 256) as u8
}

/// The native bytes of a text: each character cut down to its low byte and
/// encoded.
pub open spec fn native_text(text: Seq<char>) -> Seq<u8> {
    Seq::new(text.len(), |i: int| native_of(low_byte(text[i])))
}

/// The standard bytes of native bytes: each byte decoded.
pub open spec fn standard_bytes(native: Seq<u8>) -> Seq<u8> {
    Seq::new(native.len(), |i: int| standard_of(native[i]))
}

/// A string in the character set of the Commodore, convertible from and to
/// standard text.
#[derive(PartialEq, Eq, PartialOrd, Ord, Debug)]
pub struct PetString(BString);

impl View for PetString {
    type V = Seq<u8>;

    /// The native bytes held.
    closed spec fn view(&self) -> Seq<u8> {
        bstring_bytes(self.0)
    }
}

impl PetString {
    /// Takes a copy of native bytes as they are.
    pub fn new(b: &BString) -> (p: PetString)
        ensures
            p@ == bstring_bytes(*b),
    {
        PetString(b.clone())
    }

    /// Encodes one standard byte.
    pub fn asc2pet(a: u8) -> (p: u8)
        ensures
            p == native_of(a),
    {
        if 0x41 <= a && a <= 0x5A {
            a + 0x80
        } else if 0x61 <= a && a <= 0x7A {
            a - 0x20
        } else if 0x7B <= a && a <= 0x7F {
            a + 0x60
        } else {
            a
        }
    }

    /// Encodes a text, character by character. A character above 255 is
    /// cut down to its low byte first.
    pub fn to_pet(a: &str) -> (result: BString)
        ensures
            bstring_bytes(result) == native_text(a@),
    {
        let mut result = BString::new(Vec::new());
        for c in it: a.chars()
            invariant
                it.seq() == a@,
                bstring_bytes(result) == native_text(a@.take(it.index() as int)),
        {
            let wide: u32 = c as u32;
            let low: u8 = (wide % 256) as u8;
            bstring_push(&mut result, Self::asc2pet(low));
            assert(bstring_bytes(result) =~= native_text(a@.take(it.index() + 1)));
        }
        assert(a@.take(a@.len() as int) =~= a@);
        result
    }

    /// Decodes one native byte.
    pub fn pet2asc(p: u8) -> (a: u8)
        ensures
            a == standard_of(p),
    {
        if 0x61 <= p && p <= 0x7A {
            p - 0x20
        } else if 0x41 <= p && p <= 0x5A {
            p + 0x20
        } else if 0xC1 <= p && p <= 0xDA {
            p - 0x80
        } else if p == 0xDE {
            p - 0x60
        } else {
            p
        }
    }

    /// Decodes the bytes held, byte by byte.
    pub fn from_pet(&self) -> (result: Vec<u8>)
        ensures
            result@ == standard_bytes(self@),
    {
        let native = bstring_as_slice(&self.0);
        let mut result = Vec::<u8>::new();
        let mut i: usize = 0;
        while i < native.len()
            invariant
                i <= native@.len(),
                native@ == self@,
                result@ == standard_bytes(native@.take(i as int)),
            decreases native@.len() - i,
        {
            result.push(Self::pet2asc(native[i]));
            i = i + 1;
            assert(result@ =~= standard_bytes(native@.take(i as int)));
        }
        assert(native@.take(native@.len() as int) =~= native@);
        result
    }

    /// The native bytes as a borrowed byte string.
    pub fn as_bstr(&self) -> (b: &BStr)
        ensures
            bstr_bytes(b) == self@,
    {
        bstring_as_bstr(&self.0)
    }

    /// The native bytes as a slice.
    pub fn as_slice(&self) -> (s: &[u8])
        ensures
            s@ == self@,
    {
        bstring_as_slice(&self.0)
    }

    /// Gives up the byte string held.
    pub fn into_bstring(self) -> (b: BString)
        ensures
            bstring_bytes(b) == self@,
    {
        self.0
    }

    /// The standard text of the bytes held: they are decoded byte by byte
    /// and read as UTF-8 up to the first byte that breaks it.
    pub fn into_string(self) -> (s: String)
        ensures
            s@ == text_prefix(standard_bytes(self@)),
    {
        text_up_to_invalid(self.from_pet())
    }
}

impl From<String> for PetString {
    /// Encodes the text, as `to_pet` does.
    fn from(value: String) -> (p: PetString)
        ensures
            p@ == native_text(value@),
    {
        PetString(Self::to_pet(value.as_str()))
    }
}

impl vstd::std_specs::convert::FromSpecImpl<String> for PetString {
    open spec fn obeys_from_spec() -> bool {
        false
    }

    open spec fn from_spec(v: String) -> Self {
        arbitrary()
    }
}

impl<'a> From<&'a str> for PetString {
    /// Encodes the text, as `to_pet` does.
    fn from(value: &'a str) -> (p: PetString)
        ensures
            p@ == native_text(value@),
    {
        PetString(Self::to_pet(value))
    }
}

impl<'a> vstd::std_specs::convert::FromSpecImpl<&'a str> for PetString {
    open spec fn obeys_from_spec() -> bool {
        false
    }

    open spec fn from_spec(v: &'a str) -> Self {
        arbitrary()
    }
}

impl From<PetString> for String {
    /// Decodes the bytes and reads them as UTF-8 up to the first byte that
    /// breaks it.
    fn from(value: PetString) -> (s: String)
        ensures
            s@ == text_prefix(standard_bytes(value@)),
    {
        value.into_string()
    }
}

impl vstd::std_specs::convert::FromSpecImpl<PetString> for String {
    open spec fn obeys_from_spec() -> bool {
        false
    }

    open spec fn from_spec(v: PetString) -> Self {
        arbitrary()
    }
}

impl From<PetString> for BString {
    /// Gives up the byte string held.
    fn from(value: PetString) -> (b: BString)
        ensures
            bstring_bytes(b) == value@,
    {
        value.into_bstring()
    }
}

impl vstd::std_specs::convert::FromSpecImpl<PetString> for BString {
    open spec fn obeys_from_spec() -> bool {
        false
    }

    open spec fn from_spec(v: PetString) -> Self {
        arbitrary()
    }
}

/// `s` with blanks behind it up to `width` bytes; `s` itself where it is no
/// shorter than `width`.
pub open spec fn padded_bytes(s: Seq<u8>, width: nat) -> Seq<u8> {
    if s.len() < width {
        s + Seq::new((width - s.len()) as nat, |i: int| 0x20u8)
    } else {
        s
    }
}

/// Pads `s` with blanks at the end up to `width` bytes; a longer `s` stays
/// as it is.
pub fn _padded(s: &[u8], width: usize) -> (pad: BString)
    ensures
        bstring_bytes(pad) == padded_bytes(s@, width as nat),
{
    let mut pad = BString::new(vstd::slice::slice_to_vec(s));
    while bstring_as_slice(&pad).len() < width
        invariant
            s@.len() <= bstring_bytes(pad).len(),
            bstring_bytes(pad).len() <= width || bstring_bytes(pad).len() == s@.len(),
            bstring_bytes(pad) == s@ + Seq::new(
                (bstring_bytes(pad).len() - s@.len()) as nat,
                |i: int| 0x20u8,
            ),
        decreases width - bstring_bytes(pad).len(),
    {
        let ghost before = bstring_bytes(pad);
        bstring_push(&mut pad, 0x20);
        assert(bstring_bytes(pad) =~= s@ + Seq::new(
            (before.len() + 1 - s@.len()) as nat,
            |i: int| 0x20u8,
        ));
    }
    assert(bstring_bytes(pad) =~= padded_bytes(s@, width as nat));
    pad
}

/// Whether a text is made of ASCII characters that encoding and decoding
/// give back: all of ASCII but `{`, `|`, `}` and DEL.
pub open spec fn is_plain(text: Seq<char>) -> bool {
    forall|i: int|
        0 <= i < text.len() ==> (#[trigger] text[i]) < '\u{7f}' && text[i] != '{' && text[i] != '|'
            && text[i] != '}'
}

/// No character lies below NUL.
proof fn lemma_char_range(c: char)
    ensures
        '\0' <= c,
        c as u32 == c as int,
{
}

/// A text of plain ASCII comes back unchanged when it is encoded to native
/// bytes and these are decoded to text again.
pub proof fn lemma_plain_text_round_trip(text: Seq<char>)
    requires
        is_plain(text),
    ensures
        text_prefix(standard_bytes(native_text(text))) == text,
{
    let back = standard_bytes(native_text(text));
    assert forall|i: int| 0 <= i < text.len() implies '\0' <= #[trigger] text[i] <= '\u{7f}' by {
        lemma_char_range(text[i]);
    }
    assert(vstd::utf8::is_ascii_chars(text));
    vstd::utf8::is_ascii_chars_encode_utf8(text);
    assert forall|i: int| 0 <= i < text.len() implies back[i] == text[i] as u8 by {
        let n = text[i] as u32;
        assert(low_byte(text[i]) == n as u8);
        lemma_encode_then_decode(n as u8);
    }
    assert(back =~= vstd::utf8::encode_utf8(text));
    vstd::utf8::encode_utf8_valid_utf8(text);
    vstd::utf8::encode_utf8_decode_utf8(text);
    crate::text::lemma_valid_prefix_of_valid(back);
}

} // verus!

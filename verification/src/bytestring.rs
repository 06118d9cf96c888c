//! What this library believes of `bstr`'s owned byte string, the buffer in
//! which native text is kept.

use vstd::prelude::*;

verus! {

/// `bstr::BString`, an owned byte string. Nothing inside it is seen here:
/// its bytes go by the name `bstring_bytes`.
#[verifier::external_type_specification]
#[verifier::external_body]
pub struct ExBString(bstr::BString);

/// `bstr::BStr`, a borrowed byte string. Its bytes go by the name
/// `bstr_bytes`.
#[verifier::external_type_specification]
#[verifier::external_body]
pub struct ExBStr(bstr::BStr);

/// The bytes that a `BString` holds, in order.
pub uninterp spec fn bstring_bytes(b: bstr::BString) -> Seq<u8>;

/// The bytes that a borrowed `BStr` shows, in order.
pub uninterp spec fn bstr_bytes(b: &bstr::BStr) -> Seq<u8>;

/// `BString::new` takes the vector over as it is: the new byte string holds
/// the vector's bytes.
pub assume_specification[ bstr::BString::new ](bytes: Vec<u8>) -> (b: bstr::BString)
    ensures
        bstring_bytes(b) == bytes@,
;

/// `Clone` for `BString` is derived over its one field, a `Vec<u8>`: the copy
/// holds the same bytes.
pub assume_specification[ <bstr::BString as Clone>::clone ](b: &bstr::BString) -> (c: bstr::BString)
    ensures
        bstring_bytes(c) == bstring_bytes(*b),
;

/// `Vec::push`, reached through `BString`'s `DerefMut`, which hands out the
/// vector inside: one byte more at the end, the others untouched. As in
/// vstd's own contract of `Vec::push`, memory is taken to suffice.
#[verifier::external_body]
pub(crate) fn bstring_push(b: &mut bstr::BString, byte: u8)
    ensures
        bstring_bytes(*final(b)) == bstring_bytes(*old(b)).push(byte),
{
    b.push(byte)
}

/// `Vec::as_slice`, reached through `BString`'s `Deref`: the slice shows the
/// bytes held.
#[verifier::external_body]
pub(crate) fn bstring_as_slice(b: &bstr::BString) -> (s: &[u8])
    ensures
        s@ == bstring_bytes(*b),
{
    b.as_slice()
}

/// `ByteSlice::as_bstr`, reached through `BString`'s `Deref`: it borrows the
/// same bytes as a `BStr`.
#[verifier::external_body]
pub(crate) fn bstring_as_bstr(b: &bstr::BString) -> (s: &bstr::BStr)
    ensures
        bstr_bytes(s) == bstring_bytes(*b),
{
    bstr::ByteSlice::as_bstr(b.as_slice())
}

} // verus!

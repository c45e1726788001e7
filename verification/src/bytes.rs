//! Byte strings of the `bstr` crate, as far as refspecs use them.
//!
//! `BStr` and `BString` are opaque to the verifier. What they hold is named
//! by [`bstr_bytes`] and [`bstring_bytes`]; the functions below are the only
//! places where the crate is called, and their contracts are taken on trust
//! from its source.

use bstr::BStr;
use bstr::BString;
use bstr::ByteSlice;
use std::ops::Deref;
use vstd::prelude::*;

verus! {

/// `bstr::BStr`, a borrowed byte string. Nothing is known of a value but
/// the bytes it holds, [`bstr_bytes`].
#[verifier::external_type_specification]
#[verifier::external_body]
pub struct ExBStr(BStr);

/// `bstr::BString`, an owned byte string. Nothing is known of a value but
/// the bytes it holds, [`bstring_bytes`].
#[verifier::external_type_specification]
#[verifier::external_body]
pub struct ExBString(BString);

/// The bytes that a borrowed byte string holds, in order.
pub uninterp spec fn bstr_bytes(s: &BStr) -> Seq<u8>;

/// The bytes that an owned byte string holds, in order.
pub uninterp spec fn bstring_bytes(s: &BString) -> Seq<u8>;

/// The bytes of an optional byte string.
pub open spec fn opt_bytes(s: Option<&BStr>) -> Option<Seq<u8>> {
    match s {
        Some(s) => Some(bstr_bytes(s)),
        None => None,
    }
}

/// The bytes of an optional owned byte string.
pub open spec fn opt_owned_bytes(s: Option<BString>) -> Option<Seq<u8>> {
    match s {
        Some(s) => Some(bstring_bytes(&s)),
        None => None,
    }
}

/// `BStr`'s `Deref::deref`: the byte string seen as a slice. It is the same
/// memory, so the slice holds exactly the bytes of the string.
#[verifier::external_body]
pub(crate) fn as_bytes(s: &BStr) -> (bytes: &[u8])
    ensures
        bytes@ == bstr_bytes(s),
{
    s.deref()
}

/// `BStr`'s indexing by `..=end`: the leading part of the string up to and
/// including position `end`. The call panics where `end` is not a position
/// of the string, which the precondition rules out.
#[verifier::external_body]
pub(crate) fn up_to_inclusive(s: &BStr, end: usize) -> (head: &BStr)
    requires
        end < bstr_bytes(s).len(),
    ensures
        bstr_bytes(head) == bstr_bytes(s).subrange(0, end + 1),
{
    &s[..=end]
}

/// `ByteSlice::find_byte`: the position of the first occurrence of `byte`,
/// or `None` where it does not occur.
#[verifier::external_body]
pub(crate) fn find_byte(haystack: &[u8], byte: u8) -> (found: Option<usize>)
    ensures
        match found {
            Some(at) => {
                &&& at < haystack@.len()
                &&& haystack@[at as int] == byte
                &&& forall|i: int| 0 <= i < at ==> haystack@[i] != byte
            },
            None => forall|i: int| 0 <= i < haystack@.len() ==> haystack@[i] != byte,
        },
{
    haystack.find_byte(byte)
}

/// `BString`'s `AsRef<BStr>::as_ref`: the owned string borrowed, holding the
/// same bytes.
#[verifier::external_body]
pub(crate) fn borrow_owned(s: &BString) -> (borrowed: &BStr)
    ensures
        bstr_bytes(borrowed) == bstring_bytes(s),
{
    s.as_ref()
}

/// `BStr`'s `ToOwned::to_owned`: a copy of the bytes in a string of its own.
#[verifier::external_body]
pub(crate) fn to_owned_bytes(s: &BStr) -> (owned: BString)
    ensures
        bstring_bytes(&owned) == bstr_bytes(s),
{
    s.to_owned()
}

/// `BStr`'s `PartialEq::eq`: whether two strings hold the same bytes.
#[verifier::external_body]
pub(crate) fn same_bytes(a: &BStr, b: &BStr) -> (same: bool)
    ensures
        same == (bstr_bytes(a) == bstr_bytes(b)),
{
    a.eq(b)
}

} // verus!

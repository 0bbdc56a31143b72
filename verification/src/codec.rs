//! Decoding of file bytes and hashing of paths, done by outside code.
//!
//! Nothing in this file is proved: each function states what the routine it
//! calls is documented to do.

use vstd::prelude::*;
use vstd::utf8::decode_utf8;
use vstd::utf8::valid_utf8;
use encoding::DecoderTrap;
use encoding::Encoding;

verus! {

/// The MD5 digest of a byte string.
pub uninterp spec fn md5_digest(data: Seq<u8>) -> Seq<u8>;

/// The text that a byte string encodes in GBK, where it is well-formed GBK.
pub uninterp spec fn gbk_text(bytes: Seq<u8>) -> Option<Seq<char>>;

/// `md5::compute`: the sixteen bytes of the MD5 digest of `data`.
#[verifier::external_body]
pub(crate) fn md5_of(data: &[u8]) -> (digest: [u8; 16])
    ensures
        digest@ == md5_digest(data@),
{
    md5::compute(data).0
}

/// `std::str::from_utf8`: succeeds exactly on well-formed UTF-8, and then
/// gives the characters that the bytes encode.
#[verifier::external_body]
pub(crate) fn utf8_text(bytes: &[u8]) -> (text: Option<String>)
    ensures
        text is Some <==> valid_utf8(bytes@),
        text matches Some(t) ==> t@ == decode_utf8(bytes@),
{
    match std::str::from_utf8(bytes) {
        Ok(text) => Some(text.to_owned()),
        Err(_) => None,
    }
}

/// `encoding::all::GBK.decode` with the strict trap: the decoded text, or
/// nothing where some byte sequence is not GBK.
#[verifier::external_body]
pub(crate) fn gbk_decode(bytes: &[u8]) -> (text: Option<String>)
    ensures
        text is Some <==> gbk_text(bytes@) is Some,
        text matches Some(t) ==> gbk_text(bytes@) == Some(t@),
{
    match encoding::all::GBK.decode(bytes, DecoderTrap::Strict) {
        Ok(text) => Some(text),
        Err(_) => None,
    }
}

} // verus!

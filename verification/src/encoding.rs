//! Encodings computed by outside crates, and the names under which the
//! contracts of this library speak of them.

use base64ct::Encoding;
use sha2::Digest;
use vstd::prelude::*;
use vstd::utf8::{decode_utf8, encode_utf8, encode_utf8_decode_utf8, valid_utf8};

verus! {

/// The unpadded URL-safe Base64 text of a byte string (RFC 4648, section 5).
pub uninterp spec fn base64url_text(bytes: Seq<u8>) -> Seq<char>;

/// The SHA-256 digest of a byte string.
pub uninterp spec fn sha256_digest(bytes: Seq<u8>) -> Seq<u8>;

/// The JSON string literal for a text: the text between double quotes, with
/// the characters escaped that JSON wants escaped.
pub uninterp spec fn json_string_text(text: Seq<char>) -> Seq<char>;

/// The list of texts that a JSON text denotes: `None` where the bytes are not
/// the JSON text of an array of strings.
pub uninterp spec fn json_string_list(bytes: Seq<u8>) -> Option<Seq<Seq<char>>>;

/// The longest input that can be Base64-encoded into one `String`.
pub open spec fn base64_limit() -> int {
    usize::MAX as int / 4
}

/// Calls `base64ct::Base64UrlUnpadded::encode_string`. The contract names its
/// result `base64url_text` of the input and claims nothing else of it. Inputs
/// longer than a quarter of `usize::MAX`, on which the outside function
/// panics, are left out.
#[verifier::external_body]
fn base64url_encode(bytes: &[u8]) -> (text: String)
    requires
        bytes@.len() <= base64_limit(),
    ensures
        text@ == base64url_text(bytes@),
{
    base64ct::Base64UrlUnpadded::encode_string(bytes)
}

/// Calls `sha2::Sha256::digest`. The contract names its result
/// `sha256_digest` of the input and states its length, 32 bytes, which is the
/// output size of the hash.
#[verifier::external_body]
pub(crate) fn sha256(bytes: &[u8]) -> (digest: Vec<u8>)
    ensures
        digest@ == sha256_digest(bytes@),
        digest@.len() == 32,
{
    sha2::Sha256::digest(bytes).to_vec()
}

/// Calls `serde_json::to_string` on a string slice. The contract claims that
/// the call succeeds, since neither of the two failures that the function
/// documents can arise for a string, and names its result `json_string_text`
/// of the input.
#[verifier::external_body]
fn json_string_encode(text: &str) -> (r: Result<String, String>)
    ensures
        r is Ok,
        r->Ok_0@ == json_string_text(text@),
{
    serde_json::to_string(text).map_err(|e| e.to_string())
}

/// Calls `serde_json::from_slice` for a `Vec<String>`. The contract names
/// what the bytes parse to `json_string_list` of the bytes: the list on
/// success, `None` on an error, whose text is handed on.
#[verifier::external_body]
pub(crate) fn parse_string_list(bytes: &[u8]) -> (r: Result<Vec<String>, String>)
    ensures
        match r {
            Ok(list) => json_string_list(bytes@) == Some(list.deep_view()),
            Err(_) => json_string_list(bytes@) is None,
        },
{
    serde_json::from_slice::<Vec<String>>(bytes).map_err(|e| e.to_string())
}

/// Calls `String::from_utf8`. The contract says, in the terms of vstd's
/// model of UTF-8, what the standard library documents: the call succeeds
/// exactly on valid UTF-8, and the string then holds the characters that the
/// bytes encode. The text of an error is handed on.
#[verifier::external_body]
pub(crate) fn text_from_utf8(bytes: Vec<u8>) -> (r: Result<String, String>)
    ensures
        match r {
            Ok(text) => valid_utf8(bytes@) && text@ == decode_utf8(bytes@),
            Err(_) => !valid_utf8(bytes@),
        },
{
    String::from_utf8(bytes).map_err(|e| e.to_string())
}

/// Whether two string slices hold the same characters.
pub fn text_eq(a: &str, b: &str) -> (same: bool)
    ensures
        same == (a@ == b@),
{
    let left = a.as_bytes();
    let right = b.as_bytes();
    if left.len() != right.len() {
        return false;
    }
    let mut i: usize = 0;
    while i < left.len()
        invariant
            i <= left.len(),
            left.len() == right.len(),
            left@ == encode_utf8(a@),
            right@ == encode_utf8(b@),
            forall|j: int| 0 <= j < i ==> left@[j] == right@[j],
        decreases left.len() - i,
    {
        if left[i] != right[i] {
            return false;
        }
        i += 1;
    }
    proof {
        // Texts with the same bytes are the same text.
        assert(left@ =~= right@);
        encode_utf8_decode_utf8(a@);
        encode_utf8_decode_utf8(b@);
    }
    true
}

/// The Base64 text of `bytes`, or `None` where `bytes` is too long to encode.
pub fn base64url(bytes: &[u8]) -> (text: Option<String>)
    ensures
        bytes@.len() <= base64_limit() ==> text is Some && text->0@ == base64url_text(bytes@),
        bytes@.len() > base64_limit() ==> text is None,
{
    if bytes.len() <= usize::MAX / 4 {
        Some(base64url_encode(bytes))
    } else {
        None
    }
}

/// The JSON string literal for `text`.
pub fn json_string(text: &str) -> (literal: String)
    ensures
        literal@ == json_string_text(text@),
{
    match json_string_encode(text) {
        Ok(literal) => literal,
        Err(_) => vstd::pervasive::unreached(),
    }
}

} // verus!

//! The account key: its thumbprint, the way the protected header names it,
//! and the signing of requests.

use crate::encoding::{base64_limit, base64url, base64url_text, sha256, sha256_digest};
use crate::keys::{ecdsa_sign, p256_public_point, p256_signature, public_point, random_key};
use crate::model::Error;
use crate::payload::{payload_text, Payload};
use crate::signed_json::{
    header, header_text, payload_segment, segment, signing_input, thumbprint_input,
    thumbprint_input_text, HeaderKeyView, SignedJson, SignedJsonHeaderKey, SignedJsonView,
};
use vstd::prelude::*;
use vstd::std_specs::convert::TryFromSpecImpl;
use vstd::utf8::encode_utf8;

verus! {

/// Contains what it takes to sign requests: the secret key as raw bytes, the
/// header key in its current mode, and the key's thumbprint.
#[derive(Debug)]
pub struct Crypto {
    key: Vec<u8>,
    header_key: SignedJsonHeaderKey,
    thumbprint: String,
}

/// A `Crypto` as plain values.
pub struct CryptoView {
    pub key: Seq<u8>,
    pub header_key: HeaderKeyView,
    pub thumbprint: Seq<char>,
}

impl View for Crypto {
    type V = CryptoView;

    closed spec fn view(&self) -> CryptoView {
        CryptoView { key: self.key@, header_key: self.header_key@, thumbprint: self.thumbprint@ }
    }
}

/// Whether `key` is a P-256 secret key in its fixed width of 32 bytes.
pub open spec fn is_key(key: Seq<u8>) -> bool {
    key.len() == 32 && p256_public_point(key) is Some
}

/// The public key of `key` as a JSON Web Key: the Base64 texts of its
/// coordinates.
pub open spec fn jwk_of(key: Seq<u8>) -> HeaderKeyView
    recommends
        is_key(key),
{
    let (x, y) = p256_public_point(key)->0;
    HeaderKeyView::Jwk { x: base64url_text(x), y: base64url_text(y) }
}

/// The thumbprint of `key`: the Base64 text of the SHA-256 digest of the
/// public key's canonical JSON text.
pub open spec fn thumbprint_of(key: Seq<u8>) -> Seq<char>
    recommends
        is_key(key),
{
    let (x, y) = p256_public_point(key)->0;
    base64url_text(
        sha256_digest(encode_utf8(thumbprint_input_text(base64url_text(x), base64url_text(y)))),
    )
}

/// Whether the segments of a request are too long to encode.
pub open spec fn too_large(
    key: HeaderKeyView,
    url: Seq<char>,
    nonce: Seq<char>,
    payload: crate::payload::PayloadView,
) -> bool {
    ||| encode_utf8(header_text(key, nonce, url)).len() > base64_limit()
    ||| (!(payload is Empty) && encode_utf8(payload_text(payload)).len() > base64_limit())
}

/// The signed request for `payload` to `url` with `nonce`, as the key `key`
/// in the mode `header_key` signs it: the protected segment, the payload
/// segment, and the Base64 text of the signature over the two with a dot
/// between them. `None` where the signing operation fails.
pub open spec fn signed(
    key: Seq<u8>,
    header_key: HeaderKeyView,
    url: Seq<char>,
    nonce: Seq<char>,
    payload: crate::payload::PayloadView,
) -> Option<SignedJsonView> {
    let protected = segment(header_text(header_key, nonce, url));
    let body = payload_segment(payload);
    match p256_signature(key, signing_input(protected, body)) {
        Some(signature) => Some(
            SignedJsonView { protected, payload: body, signature: base64url_text(signature) },
        ),
        None => None,
    }
}

impl Crypto {
    /// Whether the parts belong together: the key is a secret key, the
    /// thumbprint is that of the key, and a header key in the mode `Jwk` is
    /// the key's public key.
    pub open spec fn wf(&self) -> bool {
        &&& is_key(self@.key)
        &&& self@.thumbprint == thumbprint_of(self@.key)
        &&& self@.header_key is Jwk ==> self@.header_key == jwk_of(self@.key)
    }

    /// Generate a new key ring: a random signing key, named in the header by
    /// its public key.
    pub fn generate() -> (r: Result<Crypto, Error>)
        ensures
            r is Ok,
            r->Ok_0.wf(),
            r->Ok_0@.header_key is Jwk,
    {
        let key = random_key();
        Crypto::try_from(key.as_slice())
    }

    /// The secret key's raw bytes.
    pub fn key_bytes(&self) -> (key: &Vec<u8>)
        ensures
            key@ == self@.key,
    {
        &self.key
    }

    /// The key's thumbprint.
    pub fn thumbprint(&self) -> (thumbprint: &String)
        ensures
            thumbprint@ == self@.thumbprint,
    {
        &self.thumbprint
    }

    /// How the protected header names the key at present.
    pub fn header_key(&self) -> (key: &SignedJsonHeaderKey)
        ensures
            key@ == self@.header_key,
    {
        &self.header_key
    }

    /// From now on the protected header names the key by the account's
    /// address `kid`. The key and its thumbprint stay as they are.
    pub(crate) fn set_key_id(&mut self, kid: String)
        ensures
            final(self)@.header_key == HeaderKeyView::Kid(kid@),
            final(self)@.key == old(self)@.key,
            final(self)@.thumbprint == old(self)@.thumbprint,
            old(self).wf() ==> final(self).wf(),
    {
        self.header_key = SignedJsonHeaderKey::Kid(kid);
    }

    /// Sign the given payload for a request to `url` with `nonce`.
    ///
    /// The result is `TooLarge` exactly where a segment is too long to
    /// encode, else `Signature` exactly where the signing operation fails,
    /// else the signed request.
    pub fn sign(&self, url: &str, nonce: &str, payload: &Payload) -> (r: Result<SignedJson, Error>)
        ensures
            too_large(self@.header_key, url@, nonce@, payload@) ==> r == Err::<SignedJson, Error>(
                Error::TooLarge,
            ),
            !too_large(self@.header_key, url@, nonce@, payload@) ==> match signed(
                self@.key,
                self@.header_key,
                url@,
                nonce@,
                payload@,
            ) {
                Some(envelope) => r is Ok && r->Ok_0@ == envelope,
                None => r == Err::<SignedJson, Error>(Error::Signature),
            },
            payload@ is Empty && r is Ok ==> r->Ok_0@.payload.len() == 0,
    {
        let header_json = header(&self.header_key, nonce, url);
        let protected = match base64url(header_json.as_str().as_bytes()) {
            Some(text) => text,
            None => {
                return Err(Error::TooLarge);
            },
        };
        let body = match payload {
            Payload::Empty => String::new(),
            _ => {
                let json = payload.to_json();
                match base64url(json.as_str().as_bytes()) {
                    Some(text) => text,
                    None => {
                        return Err(Error::TooLarge);
                    },
                }
            },
        };
        let mut input = String::new();
        input.append(protected.as_str());
        input.append(".");
        input.append(body.as_str());
        match ecdsa_sign(self.key.as_slice(), input.as_str().as_bytes()) {
            Some(signature) => {
                match base64url(signature.as_slice()) {
                    Some(text) => Ok(SignedJson { protected, payload: body, signature: text }),
                    None => Err(Error::TooLarge),
                }
            },
            None => Err(Error::Signature),
        }
    }
}

impl<'a> TryFrom<&'a [u8]> for Crypto {
    type Error = Error;

    /// The key ring of the secret key `bytes`, which the header names by its
    /// public key. Fails with `SigningKeyFromBytes` exactly where `bytes`
    /// are not a secret key of 32 bytes.
    fn try_from(bytes: &'a [u8]) -> (r: Result<Crypto, Error>)
        ensures
            is_key(bytes@) <==> r is Ok,
            r is Ok ==> r->Ok_0.wf() && r->Ok_0@.key == bytes@ && r->Ok_0@.header_key is Jwk,
            r is Err ==> r->Err_0 is SigningKeyFromBytes,
    {
        if bytes.len() != 32 {
            return Err(Error::SigningKeyFromBytes("the key is not 32 bytes long".to_string()));
        }
        match public_point(bytes) {
            Some((x, y)) => {
                let encoded_x = base64url(x.as_slice()).unwrap();
                let encoded_y = base64url(y.as_slice()).unwrap();
                let input = thumbprint_input(encoded_x.as_str(), encoded_y.as_str());
                let digest = sha256(input.as_str().as_bytes());
                let thumbprint = base64url(digest.as_slice()).unwrap();
                let header_key = SignedJsonHeaderKey::Jwk { x: encoded_x, y: encoded_y };
                Ok(Crypto { key: vstd::slice::slice_to_vec(bytes), header_key, thumbprint })
            },
            None => Err(
                Error::SigningKeyFromBytes("the bytes are not a P-256 secret key".to_string()),
            ),
        }
    }
}

impl<'a> TryFromSpecImpl<&'a [u8]> for Crypto {
    open spec fn obeys_try_from_spec() -> bool {
        false
    }

    open spec fn try_from_spec(bytes: &'a [u8]) -> Result<Crypto, Error> {
        arbitrary()
    }
}

} // verus!

//! The signed envelope of a request: its protected header and its three
//! Base64 segments.

use crate::encoding::{base64url_text, json_string, json_string_text};
use crate::payload::{payload_text, PayloadView};
use vstd::prelude::*;
use vstd::utf8::encode_utf8;

verus! {

/// How the protected header names the account key: by the public key itself
/// before registration, by the account's address afterwards.
#[derive(Debug)]
pub enum SignedJsonHeaderKey {
    /// The public key's coordinates, each as Base64 text.
    Jwk { x: String, y: String },
    /// The account's address.
    Kid(String),
}

/// A `SignedJsonHeaderKey` as texts.
pub enum HeaderKeyView {
    Jwk { x: Seq<char>, y: Seq<char> },
    Kid(Seq<char>),
}

impl DeepView for SignedJsonHeaderKey {
    type V = HeaderKeyView;

    open spec fn deep_view(&self) -> HeaderKeyView {
        match self {
            SignedJsonHeaderKey::Jwk { x, y } => HeaderKeyView::Jwk { x: x@, y: y@ },
            SignedJsonHeaderKey::Kid(kid) => HeaderKeyView::Kid(kid@),
        }
    }
}

impl View for SignedJsonHeaderKey {
    type V = HeaderKeyView;

    open spec fn view(&self) -> HeaderKeyView {
        self.deep_view()
    }
}

/// A signed request: the protected header, the payload and the signature,
/// each as Base64 text.
#[derive(Debug)]
pub struct SignedJson {
    pub protected: String,
    pub payload: String,
    pub signature: String,
}

/// A `SignedJson` as texts.
pub struct SignedJsonView {
    pub protected: Seq<char>,
    pub payload: Seq<char>,
    pub signature: Seq<char>,
}

impl DeepView for SignedJson {
    type V = SignedJsonView;

    open spec fn deep_view(&self) -> SignedJsonView {
        SignedJsonView {
            protected: self.protected@,
            payload: self.payload@,
            signature: self.signature@,
        }
    }
}

impl View for SignedJson {
    type V = SignedJsonView;

    open spec fn view(&self) -> SignedJsonView {
        self.deep_view()
    }
}

/// The member of the protected header that names the key: `jwk` with the
/// public key as a JSON Web Key, or `kid` with the account's address.
pub open spec fn key_member_text(key: HeaderKeyView) -> Seq<char> {
    match key {
        HeaderKeyView::Jwk { x, y } => {
            "\"jwk\":{\"alg\":\"ES256\",\"crv\":\"P-256\",\"kty\":\"EC\",\"use\":\"sig\",\"x\":"@
                + json_string_text(x) + ",\"y\":"@ + json_string_text(y) + "}"@
        },
        HeaderKeyView::Kid(kid) => "\"kid\":"@ + json_string_text(kid),
    }
}

/// The JSON text of the protected header: the algorithm `ES256`, the key
/// member, the nonce and the address that the request goes to.
pub open spec fn header_text(key: HeaderKeyView, nonce: Seq<char>, url: Seq<char>) -> Seq<char> {
    "{\"alg\":\"ES256\","@ + key_member_text(key) + ",\"nonce\":"@ + json_string_text(nonce)
        + ",\"url\":"@ + json_string_text(url) + "}"@
}

/// The JSON text whose digest is the key's thumbprint: the required members
/// of the JSON Web Key in lexical order.
pub open spec fn thumbprint_input_text(x: Seq<char>, y: Seq<char>) -> Seq<char> {
    "{\"crv\":\"P-256\",\"kty\":\"EC\",\"x\":"@ + json_string_text(x) + ",\"y\":"@
        + json_string_text(y) + "}"@
}

/// The JSON text of a signed request as it is posted.
pub open spec fn envelope_text(e: SignedJsonView) -> Seq<char> {
    "{\"protected\":"@ + json_string_text(e.protected) + ",\"payload\":"@ + json_string_text(
        e.payload,
    ) + ",\"signature\":"@ + json_string_text(e.signature) + "}"@
}

/// The Base64 segment of a text: the encoding of its UTF-8 bytes.
pub open spec fn segment(text: Seq<char>) -> Seq<char> {
    base64url_text(encode_utf8(text))
}

/// The payload segment of a request: empty for the payload `Empty`, else the
/// segment of the payload's JSON text.
pub open spec fn payload_segment(p: PayloadView) -> Seq<char> {
    if p is Empty {
        Seq::empty()
    } else {
        segment(payload_text(p))
    }
}

/// The bytes that are signed: the protected segment, a dot, the payload
/// segment.
pub open spec fn signing_input(protected: Seq<char>, payload: Seq<char>) -> Seq<u8> {
    encode_utf8(protected + "."@ + payload)
}

/// A request without a payload has the empty string for its payload
/// segment, and the bytes that are signed for it are the protected segment
/// followed by a dot and nothing more.
pub proof fn empty_payload_signing_input(protected: Seq<char>)
    ensures
        payload_segment(PayloadView::Empty) == Seq::<char>::empty(),
        payload_segment(PayloadView::Empty).len() == 0,
        signing_input(protected, payload_segment(PayloadView::Empty)) == encode_utf8(
            protected + "."@,
        ),
{
}

/// Writes the member of the protected header that names the key.
pub fn key_member(key: &SignedJsonHeaderKey) -> (out: String)
    ensures
        out@ == key_member_text(key@),
{
    let mut out = String::new();
    match key {
        SignedJsonHeaderKey::Jwk { x, y } => {
            out.append(
                "\"jwk\":{\"alg\":\"ES256\",\"crv\":\"P-256\",\"kty\":\"EC\",\"use\":\"sig\",\"x\":",
            );
            out.append(json_string(x.as_str()).as_str());
            out.append(",\"y\":");
            out.append(json_string(y.as_str()).as_str());
            out.append("}");
        },
        SignedJsonHeaderKey::Kid(kid) => {
            out.append("\"kid\":");
            out.append(json_string(kid.as_str()).as_str());
        },
    }
    out
}

/// Writes the JSON text of the protected header.
pub fn header(key: &SignedJsonHeaderKey, nonce: &str, url: &str) -> (out: String)
    ensures
        out@ == header_text(key@, nonce@, url@),
{
    let mut out = String::new();
    out.append("{\"alg\":\"ES256\",");
    out.append(key_member(key).as_str());
    out.append(",\"nonce\":");
    out.append(json_string(nonce).as_str());
    out.append(",\"url\":");
    out.append(json_string(url).as_str());
    out.append("}");
    out
}

/// Writes the JSON text whose digest is the thumbprint of the key with the
/// coordinates `x` and `y`, given as Base64 texts.
pub fn thumbprint_input(x: &str, y: &str) -> (out: String)
    ensures
        out@ == thumbprint_input_text(x@, y@),
{
    let mut out = String::new();
    out.append("{\"crv\":\"P-256\",\"kty\":\"EC\",\"x\":");
    out.append(json_string(x).as_str());
    out.append(",\"y\":");
    out.append(json_string(y).as_str());
    out.append("}");
    out
}

impl SignedJson {
    /// The JSON text of the signed request as it is posted.
    pub fn to_json(&self) -> (out: String)
        ensures
            out@ == envelope_text(self@),
    {
        let mut out = String::new();
        out.append("{\"protected\":");
        out.append(json_string(self.protected.as_str()).as_str());
        out.append(",\"payload\":");
        out.append(json_string(self.payload.as_str()).as_str());
        out.append(",\"signature\":");
        out.append(json_string(self.signature.as_str()).as_str());
        out.append("}");
        out
    }
}

} // verus!

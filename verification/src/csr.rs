//! Certificate signing requests, generated by the `rcgen` crate.

use vstd::prelude::*;
use vstd::utf8::is_ascii_chars;

verus! {

/// A freshly generated key pair: the names that the signing request was
/// asked for, the request that was built with the key pair, and the private
/// key, both in DER.
#[derive(Debug)]
pub struct Generated {
    pub names: Vec<String>,
    pub request: Vec<u8>,
    pub private_key: Vec<u8>,
}

/// How an attempt to generate a signing request ended.
#[derive(Debug)]
pub enum Generation {
    /// No key pair could be generated: the text says why.
    NoKeyPair(String),
    /// The request could not be serialized: the text says why.
    Unserializable(String),
    /// A key pair and its request.
    Done(Generated),
}

/// Whether every one of the names is made of ASCII characters alone.
pub open spec fn all_ascii(names: Seq<Seq<char>>) -> bool {
    forall|i: int| 0 <= i < names.len() ==> is_ascii_chars(#[trigger] names[i])
}

/// Calls `rcgen::CertificateParams::new` with the names as subject
/// alternative names, gives the parameters an empty distinguished name from
/// `rcgen::DistinguishedName::new`, generates a key pair with
/// `rcgen::Certificate::from_params`, and serializes the request and the
/// private key with `serialize_request_der` and `serialize_private_key_der`.
///
/// The names must be ASCII: the request holds each name as an IA5 string,
/// and the outside code panics on a name that is not ASCII. The key pair is
/// random, so the contract claims nothing of the request or the key; it
/// says only that an outcome with a request carries the names that were
/// handed in.
#[verifier::external_body]
pub(crate) fn generate_request(names: Vec<String>) -> (generation: Generation)
    requires
        all_ascii(names.deep_view()),
    ensures
        generation matches Generation::Done(made) ==> made.names.deep_view() == names.deep_view(),
{
    let mut params = rcgen::CertificateParams::new(names.clone());
    params.distinguished_name = rcgen::DistinguishedName::new();
    let cert = match rcgen::Certificate::from_params(params) {
        Ok(cert) => cert,
        Err(e) => return Generation::NoKeyPair(e.to_string()),
    };
    match cert.serialize_request_der() {
        Ok(request) => {
            Generation::Done(Generated { names, request, private_key: cert.serialize_private_key_der() })
        },
        Err(e) => Generation::Unserializable(e.to_string()),
    }
}

} // verus!

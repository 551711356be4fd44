//! The protocol's plain data: challenge types, authorities, identifiers,
//! the directory, challenges, responses and errors.

use vstd::prelude::*;
use vstd::std_specs::convert::IntoSpecImpl;

verus! {

/// Supported ACME challenge types.
#[derive(Clone, Copy, Debug, PartialEq, Eq, Structural)]
pub enum ChallengeType {
    DNS,
}

/// The supported certificate authorities.
#[derive(Clone, Copy, Debug, PartialEq, Eq, Structural)]
pub enum CertificateAuthority {
    LetsEncryptStaging,
    LetsEncryptProduction,
}

/// The word by which the protocol names a challenge type.
pub open spec fn challenge_type_text(ct: ChallengeType) -> Seq<char> {
    match ct {
        ChallengeType::DNS => "dns-01"@,
    }
}

/// The address of an authority's ACME directory.
pub open spec fn directory_url_text(ca: CertificateAuthority) -> Seq<char> {
    match ca {
        CertificateAuthority::LetsEncryptStaging => {
            "https://acme-staging-v02.api.letsencrypt.org/directory"@
        },
        CertificateAuthority::LetsEncryptProduction => {
            "https://acme-v02.api.letsencrypt.org/directory"@
        },
    }
}

impl ChallengeType {
    /// The word by which the protocol names the challenge type.
    pub fn as_str(self) -> (word: &'static str)
        ensures
            word@ == challenge_type_text(self),
    {
        self.into()
    }
}

impl CertificateAuthority {
    /// The address of the authority's ACME directory.
    pub fn directory_url(self) -> (url: &'static str)
        ensures
            url@ == directory_url_text(self),
    {
        self.into()
    }
}

impl Into<&'static str> for ChallengeType {
    fn into(self) -> (word: &'static str) {
        match self {
            ChallengeType::DNS => "dns-01",
        }
    }
}

impl IntoSpecImpl<&'static str> for ChallengeType {
    open spec fn obeys_into_spec() -> bool {
        true
    }

    /// The word by which the protocol names the challenge type.
    open spec fn into_spec(self) -> &'static str {
        match self {
            ChallengeType::DNS => "dns-01",
        }
    }
}

impl Into<&'static str> for CertificateAuthority {
    fn into(self) -> (url: &'static str) {
        match self {
            CertificateAuthority::LetsEncryptStaging => {
                "https://acme-staging-v02.api.letsencrypt.org/directory"
            },
            CertificateAuthority::LetsEncryptProduction => {
                "https://acme-v02.api.letsencrypt.org/directory"
            },
        }
    }
}

impl IntoSpecImpl<&'static str> for CertificateAuthority {
    open spec fn obeys_into_spec() -> bool {
        true
    }

    /// The address of the authority's ACME directory.
    open spec fn into_spec(self) -> &'static str {
        match self {
            CertificateAuthority::LetsEncryptStaging => {
                "https://acme-staging-v02.api.letsencrypt.org/directory"
            },
            CertificateAuthority::LetsEncryptProduction => {
                "https://acme-v02.api.letsencrypt.org/directory"
            },
        }
    }
}

/// A name that a certificate is asked for: its kind (`dns`) and its value.
#[derive(Debug)]
pub struct Identifier {
    pub kind: String,
    pub value: String,
}

/// An `Identifier` as texts.
pub struct IdentifierView {
    pub kind: Seq<char>,
    pub value: Seq<char>,
}

impl DeepView for Identifier {
    type V = IdentifierView;

    open spec fn deep_view(&self) -> IdentifierView {
        IdentifierView { kind: self.kind@, value: self.value@ }
    }
}

impl View for Identifier {
    type V = IdentifierView;

    open spec fn view(&self) -> IdentifierView {
        self.deep_view()
    }
}

/// The authority's endpoints, and the account's own address once it is
/// registered.
#[derive(Debug)]
pub struct Directory {
    pub new_nonce: String,
    pub new_account: String,
    pub new_order: String,
    pub revoke_cert: String,
    pub account: Option<String>,
}

/// A `Directory` as texts.
pub struct DirectoryView {
    pub new_nonce: Seq<char>,
    pub new_account: Seq<char>,
    pub new_order: Seq<char>,
    pub revoke_cert: Seq<char>,
    pub account: Option<Seq<char>>,
}

impl DeepView for Directory {
    type V = DirectoryView;

    open spec fn deep_view(&self) -> DirectoryView {
        DirectoryView {
            new_nonce: self.new_nonce@,
            new_account: self.new_account@,
            new_order: self.new_order@,
            revoke_cert: self.revoke_cert@,
            account: self.account.deep_view(),
        }
    }
}

impl View for Directory {
    type V = DirectoryView;

    open spec fn view(&self) -> DirectoryView {
        self.deep_view()
    }
}

/// A challenge that an authorization offers. `domain` and `response` are
/// empty as the authority sends it; matching an authorization fills them.
#[derive(Debug)]
pub struct Challenge {
    pub kind: String,
    pub url: String,
    pub token: String,
    pub status: Option<String>,
    pub validated: Option<String>,
    pub domain: String,
    pub response: String,
}

/// A `Challenge` as texts.
pub struct ChallengeView {
    pub kind: Seq<char>,
    pub url: Seq<char>,
    pub token: Seq<char>,
    pub status: Option<Seq<char>>,
    pub validated: Option<Seq<char>>,
    pub domain: Seq<char>,
    pub response: Seq<char>,
}

impl DeepView for Challenge {
    type V = ChallengeView;

    open spec fn deep_view(&self) -> ChallengeView {
        ChallengeView {
            kind: self.kind@,
            url: self.url@,
            token: self.token@,
            status: self.status.deep_view(),
            validated: self.validated.deep_view(),
            domain: self.domain@,
            response: self.response@,
        }
    }
}

impl View for Challenge {
    type V = ChallengeView;

    open spec fn view(&self) -> ChallengeView {
        self.deep_view()
    }
}

/// A copy of an optional text.
pub fn clone_text(text: &Option<String>) -> (copy: Option<String>)
    ensures
        copy.deep_view() == text.deep_view(),
{
    match text {
        Some(t) => Some(t.clone()),
        None => None,
    }
}

impl Clone for Challenge {
    fn clone(&self) -> (copy: Challenge)
        ensures
            copy@ == self@,
    {
        Challenge {
            kind: self.kind.clone(),
            url: self.url.clone(),
            token: self.token.clone(),
            status: clone_text(&self.status),
            validated: clone_text(&self.validated),
            domain: self.domain.clone(),
            response: self.response.clone(),
        }
    }
}

/// What the caller read from an HTTP response: the status code, the
/// `replay-nonce` and `location` headers where present, and the body.
#[derive(Debug)]
pub struct Response {
    pub status: u16,
    pub nonce: Option<String>,
    pub location: Option<String>,
    pub body: Vec<u8>,
}

/// How an HTTP exchange ended.
#[derive(Debug)]
pub enum Outcome {
    /// The server answered with a success status.
    Replied(Response),
    /// The server answered with an error status.
    Refused(Response),
    /// No answer came: the text says what went wrong in transport.
    Failed(String),
}

/// The request method of an exchange.
#[derive(Clone, Copy, Debug, PartialEq, Eq, Structural)]
pub enum Method {
    Get,
    Head,
    Post,
}

/// Consolidates errors of a few types.
#[derive(Debug)]
pub enum Error {
    HttpIo(String),
    HttpGet(Response),
    HttpHead(Response),
    HttpPost(Response),
    ResponseIntoJson(String),
    ResponseIntoString(String),
    ResponseLacksLocation(Response),
    ResponseLacksNonce(Response),
    CertificateSerialize(String),
    CertificateUnavailable,
    JsonToVec(String),
    JsonFromBytes(String),
    SigningKeyFromBytes(String),
    ParseFromBytes(String),
    Signature,
    TooLarge,
}

/// What an exchange by `method` that ended in `outcome` hands to the code
/// that asked for it: the response of a success, `HttpIo` with the transport's
/// text where no answer came, and for an answer with an error status the
/// error of that method with the response.
pub open spec fn classified(method: Method, outcome: Outcome) -> Result<Response, Error> {
    match outcome {
        Outcome::Replied(response) => Ok(response),
        Outcome::Refused(response) => Err(
            match method {
                Method::Get => Error::HttpGet(response),
                Method::Head => Error::HttpHead(response),
                Method::Post => Error::HttpPost(response),
            },
        ),
        Outcome::Failed(text) => Err(Error::HttpIo(text)),
    }
}

impl Outcome {
    /// Sorts the end of an exchange by `method` into a response or an error.
    pub fn classify(self, method: Method) -> (r: Result<Response, Error>)
        ensures
            r == classified(method, self),
    {
        match self {
            Outcome::Replied(response) => Ok(response),
            Outcome::Refused(response) => Err(
                match method {
                    Method::Get => Error::HttpGet(response),
                    Method::Head => Error::HttpHead(response),
                    Method::Post => Error::HttpPost(response),
                },
            ),
            Outcome::Failed(text) => Err(Error::HttpIo(text)),
        }
    }
}

} // verus!

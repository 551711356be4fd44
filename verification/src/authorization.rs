//! Authorizations: what the authority asks as proof of control over one
//! identifier, and the challenge that was picked to give it.

use crate::account::{posts, same_identity, Account, Step};
use crate::encoding::{base64url, base64url_text, sha256, sha256_digest, text_eq};
use crate::model::{Challenge, ChallengeView, Error, Identifier, IdentifierView};
use crate::payload::{Payload, PayloadView};
use crate::status::{auth_status_of, AuthStatus};
use vstd::prelude::*;
use vstd::utf8::encode_utf8;

verus! {

/// An authorization resource as the authority sends it.
#[derive(Debug)]
pub struct AuthData {
    pub status: String,
    pub expires: Option<String>,
    pub identifier: Identifier,
    pub challenges: Vec<Challenge>,
    pub wildcard: Option<bool>,
}

/// An `AuthData` as texts.
pub struct AuthDataView {
    pub status: Seq<char>,
    pub expires: Option<Seq<char>>,
    pub identifier: IdentifierView,
    pub challenges: Seq<ChallengeView>,
    pub wildcard: Option<bool>,
}

impl DeepView for AuthData {
    type V = AuthDataView;

    open spec fn deep_view(&self) -> AuthDataView {
        AuthDataView {
            status: self.status@,
            expires: self.expires.deep_view(),
            identifier: self.identifier@,
            challenges: self.challenges.deep_view(),
            wildcard: self.wildcard,
        }
    }
}

impl View for AuthData {
    type V = AuthDataView;

    open spec fn view(&self) -> AuthDataView {
        self.deep_view()
    }
}

/// An authorization together with the one challenge that was picked from it.
#[derive(Debug)]
pub struct Authorization {
    pub url: String,
    pub data: AuthData,
    pub challenge: Challenge,
}

/// An `Authorization` as texts.
pub struct AuthorizationView {
    pub url: Seq<char>,
    pub data: AuthDataView,
    pub challenge: ChallengeView,
}

impl DeepView for Authorization {
    type V = AuthorizationView;

    open spec fn deep_view(&self) -> AuthorizationView {
        AuthorizationView { url: self.url@, data: self.data@, challenge: self.challenge@ }
    }
}

impl View for Authorization {
    type V = AuthorizationView;

    open spec fn view(&self) -> AuthorizationView {
        self.deep_view()
    }
}

/// The place of the first challenge of the given kind at or after `from`.
pub open spec fn first_match(challenges: Seq<ChallengeView>, kind: Seq<char>, from: int) -> Option<
    int,
>
    decreases challenges.len() - from,
{
    if from < 0 || from >= challenges.len() {
        None
    } else if challenges[from].kind == kind {
        Some(from)
    } else {
        first_match(challenges, kind, from + 1)
    }
}

/// The proof of control for a challenge's token under an account key's
/// thumbprint: the Base64 text of the SHA-256 digest of the token, a dot and
/// the thumbprint.
pub open spec fn proof_text(token: Seq<char>, thumbprint: Seq<char>) -> Seq<char> {
    base64url_text(sha256_digest(encode_utf8(token + "."@ + thumbprint)))
}

/// The authorization that is made of a resource fetched from `url`: its
/// first challenge of the given kind, stamped with the proof of control and
/// with the identifier's value. `None` where it offers no such challenge.
pub open spec fn matched(
    url: Seq<char>,
    data: AuthDataView,
    kind: Seq<char>,
    thumbprint: Seq<char>,
) -> Option<AuthorizationView> {
    match first_match(data.challenges, kind, 0) {
        Some(i) => Some(
            AuthorizationView {
                url,
                data,
                challenge: ChallengeView {
                    domain: data.identifier.value,
                    response: proof_text(data.challenges[i].token, thumbprint),
                    ..data.challenges[i]
                },
            },
        ),
        None => None,
    }
}

/// The first match is a challenge of the kind asked for, and no challenge
/// before it is; where there is no match, no challenge is of that kind.
pub proof fn first_match_is_first(challenges: Seq<ChallengeView>, kind: Seq<char>, from: int)
    requires
        0 <= from,
    ensures
        match first_match(challenges, kind, from) {
            Some(i) => from <= i < challenges.len() && challenges[i].kind == kind && forall|j: int|
                from <= j < i ==> challenges[j].kind != kind,
            None => forall|j: int| from <= j < challenges.len() ==> challenges[j].kind != kind,
        },
    decreases challenges.len() - from,
{
    if from < challenges.len() && challenges[from].kind != kind {
        first_match_is_first(challenges, kind, from + 1);
    }
}

/// The place of the first of `challenges` whose kind is `kind`.
pub fn select_challenge(challenges: &Vec<Challenge>, kind: &str) -> (place: Option<usize>)
    ensures
        match place {
            Some(i) => i < challenges.len() && first_match(challenges.deep_view(), kind@, 0)
                == Some(i as int),
            None => first_match(challenges.deep_view(), kind@, 0) is None,
        },
{
    let mut i: usize = 0;
    while i < challenges.len()
        invariant
            i <= challenges.len(),
            challenges.deep_view().len() == challenges.len(),
            first_match(challenges.deep_view(), kind@, 0) == first_match(
                challenges.deep_view(),
                kind@,
                i as int,
            ),
        decreases challenges.len() - i,
    {
        if text_eq(challenges[i].kind.as_str(), kind) {
            return Some(i);
        }
        i += 1;
    }
    None
}

/// The proof of control for `token` under the account key's `thumbprint`.
pub fn challenge_response(token: &str, thumbprint: &str) -> (response: String)
    ensures
        response@ == proof_text(token@, thumbprint@),
{
    let mut input = String::new();
    input.append(token);
    input.append(".");
    input.append(thumbprint);
    let digest = sha256(input.as_str().as_bytes());
    base64url(digest.as_slice()).unwrap()
}

impl Authorization {
    /// The state of the authorization: `Pending` and `Valid` for the words
    /// `pending` and `valid`, `Invalid` for every other text.
    pub fn status(&self) -> (status: AuthStatus)
        ensures
            status == auth_status_of(self.data.status@),
    {
        AuthStatus::from(self.data.status.as_str())
    }

    /// Decides what telling the authority that the challenge is ready needs
    /// next: a signed POST of an empty object to the challenge's address.
    pub fn request_ready(&self, account: &mut Account) -> (r: Result<Step, Error>)
        ensures
            same_identity(old(account)@, final(account)@),
            posts(
                old(account)@,
                final(account)@,
                self.challenge.url@,
                PayloadView::EmptyObject,
                r,
            ),
    {
        account.post(self.challenge.url.as_str(), &Payload::EmptyObject)
    }

    /// Makes the authorization of a resource fetched from `url`: picks its
    /// first challenge of the given kind and stamps it with the proof of
    /// control and the identifier's value. `None` where the resource offers
    /// no challenge of that kind.
    pub fn matching(url: &str, data: AuthData, kind: &str, thumbprint: &str) -> (r: Option<
        Authorization,
    >)
        ensures
            r.deep_view() == matched(url@, data@, kind@, thumbprint@),
    {
        match select_challenge(&data.challenges, kind) {
            Some(i) => {
                let offered = &data.challenges[i];
                let mut challenge = offered.clone();
                challenge.response = challenge_response(offered.token.as_str(), thumbprint);
                challenge.domain = data.identifier.value.clone();
                Some(Authorization { url: url.to_string(), data, challenge })
            },
            None => None,
        }
    }
}

} // verus!

//! Orders: one request for a certificate, from its creation to the download
//! of the certificate.

use crate::account::{posts, same_identity, Account, Step};
use crate::authorization::{first_match, matched, AuthData, AuthDataView, Authorization, AuthorizationView};
use crate::csr::{all_ascii, generate_request, Generation};
use crate::encoding::{base64_limit, base64url, base64url_text, text_from_utf8};
use crate::model::{
    challenge_type_text, Challenge, ChallengeType, ChallengeView, Error, Identifier,
    IdentifierView, Response,
};
use crate::payload::{Payload, PayloadView};
use crate::status::{order_status_of, OrderStatus};
use vstd::prelude::*;
use vstd::utf8::{decode_utf8, is_ascii_chars, valid_utf8};

verus! {

/// An order resource as the authority sends it.
#[derive(Debug)]
pub struct OrderData {
    pub status: String,
    pub expires: String,
    pub identifiers: Vec<Identifier>,
    pub authorizations: Vec<String>,
    pub finalize: String,
    pub certificate: Option<String>,
}

/// An `OrderData` as texts.
pub struct OrderDataView {
    pub status: Seq<char>,
    pub expires: Seq<char>,
    pub identifiers: Seq<IdentifierView>,
    pub authorizations: Seq<Seq<char>>,
    pub finalize: Seq<char>,
    pub certificate: Option<Seq<char>>,
}

impl DeepView for OrderData {
    type V = OrderDataView;

    open spec fn deep_view(&self) -> OrderDataView {
        OrderDataView {
            status: self.status@,
            expires: self.expires@,
            identifiers: self.identifiers.deep_view(),
            authorizations: self.authorizations.deep_view(),
            finalize: self.finalize@,
            certificate: self.certificate.deep_view(),
        }
    }
}

impl View for OrderData {
    type V = OrderDataView;

    open spec fn view(&self) -> OrderDataView {
        self.deep_view()
    }
}

/// One request for a certificate: its address, the resource as last read,
/// the thumbprint of the account key that issued it, and the private key of
/// the signing request that was last made for it.
#[derive(Debug)]
pub struct Order {
    url: String,
    data: OrderData,
    thumbprint: String,
    private_key: Option<Vec<u8>>,
}

/// An `Order` as plain values.
pub struct OrderView {
    pub url: Seq<char>,
    pub data: OrderDataView,
    pub thumbprint: Seq<char>,
    pub private_key: Option<Seq<u8>>,
}

impl View for Order {
    type V = OrderView;

    closed spec fn view(&self) -> OrderView {
        OrderView {
            url: self.url@,
            data: self.data@,
            thumbprint: self.thumbprint@,
            private_key: match self.private_key {
                Some(key) => Some(key@),
                None => None,
            },
        }
    }
}

/// The lesser of two lengths.
pub open spec fn lesser(a: nat, b: nat) -> nat {
    if a <= b {
        a
    } else {
        b
    }
}

/// The authorizations made of the first `n` of the resources `fetched`, the
/// `i`-th of them read from the `i`-th of `urls`, in their order; a resource
/// without a challenge of the kind gives none.
pub open spec fn authorized_first(
    urls: Seq<Seq<char>>,
    fetched: Seq<AuthDataView>,
    kind: Seq<char>,
    thumbprint: Seq<char>,
    n: nat,
) -> Seq<AuthorizationView>
    recommends
        n <= urls.len(),
        n <= fetched.len(),
    decreases n,
{
    if n == 0 {
        Seq::empty()
    } else {
        let before = authorized_first(urls, fetched, kind, thumbprint, (n - 1) as nat);
        match matched(urls[n - 1], fetched[n - 1], kind, thumbprint) {
            Some(authorization) => before.push(authorization),
            None => before,
        }
    }
}

/// The authorizations made of the resources `fetched`, the `i`-th of them
/// read from the `i`-th of `urls`. A resource for which there is no address
/// does not count.
pub open spec fn authorized(
    urls: Seq<Seq<char>>,
    fetched: Seq<AuthDataView>,
    kind: Seq<char>,
    thumbprint: Seq<char>,
) -> Seq<AuthorizationView> {
    authorized_first(urls, fetched, kind, thumbprint, lesser(urls.len(), fetched.len()))
}

/// Every authorization made of the first `n` resources holds a challenge of
/// the kind asked for, picked from one of these resources, and where none of
/// them offers a challenge of that kind, none is made.
pub proof fn authorized_first_only_matching(
    urls: Seq<Seq<char>>,
    fetched: Seq<AuthDataView>,
    kind: Seq<char>,
    thumbprint: Seq<char>,
    n: nat,
)
    requires
        n <= urls.len(),
        n <= fetched.len(),
    ensures
        authorized_first(urls, fetched, kind, thumbprint, n).len() <= n,
        forall|k: int|
            0 <= k < authorized_first(urls, fetched, kind, thumbprint, n).len() ==> {
                let made = #[trigger] authorized_first(urls, fetched, kind, thumbprint, n)[k];
                &&& made.challenge.kind == kind
                &&& exists|j: int|
                    0 <= j < n && matched(urls[j], fetched[j], kind, thumbprint) == Some(made)
            },
        (forall|j: int, c: int|
            0 <= j < n && 0 <= c < fetched[j].challenges.len()
                ==> #[trigger] fetched[j].challenges[c].kind != kind) ==> authorized_first(
            urls,
            fetched,
            kind,
            thumbprint,
            n,
        ).len() == 0,
    decreases n,
{
    if n > 0 {
        let m = (n - 1) as nat;
        authorized_first_only_matching(urls, fetched, kind, thumbprint, m);
        crate::authorization::first_match_is_first(fetched[n - 1].challenges, kind, 0);
        let before = authorized_first(urls, fetched, kind, thumbprint, m);
        let all = authorized_first(urls, fetched, kind, thumbprint, n);
        if forall|j: int, c: int|
            0 <= j < n && 0 <= c < fetched[j].challenges.len()
                ==> #[trigger] fetched[j].challenges[c].kind != kind {
            if first_match(fetched[n - 1].challenges, kind, 0) is Some {
                let i = first_match(fetched[n - 1].challenges, kind, 0)->0;
            }
        }
    }
}

/// Every authorization that is made holds a challenge of the kind asked
/// for, picked from the resource that it was made of, and a resource that
/// offers no challenge of that kind gives no authorization: where none of
/// the resources offers one, none is made.
pub proof fn authorized_only_matching(
    urls: Seq<Seq<char>>,
    fetched: Seq<AuthDataView>,
    kind: Seq<char>,
    thumbprint: Seq<char>,
)
    ensures
        authorized(urls, fetched, kind, thumbprint).len() <= fetched.len(),
        forall|k: int|
            0 <= k < authorized(urls, fetched, kind, thumbprint).len() ==> {
                let made = #[trigger] authorized(urls, fetched, kind, thumbprint)[k];
                &&& made.challenge.kind == kind
                &&& exists|j: int|
                    0 <= j < fetched.len() && j < urls.len() && matched(
                        urls[j],
                        fetched[j],
                        kind,
                        thumbprint,
                    ) == Some(made)
            },
        (forall|j: int, c: int|
            0 <= j < fetched.len() && 0 <= c < fetched[j].challenges.len()
                ==> #[trigger] fetched[j].challenges[c].kind != kind) ==> authorized(
            urls,
            fetched,
            kind,
            thumbprint,
        ).len() == 0,
{
    let n = lesser(urls.len(), fetched.len());
    authorized_first_only_matching(urls, fetched, kind, thumbprint, n);
    let all = authorized(urls, fetched, kind, thumbprint);
}

/// The challenges as the authority acknowledged them, each with the domain
/// of the authorization that it belongs to: the `i`-th reply with the `i`-th
/// authorization. A reply for which there is no authorization does not
/// count.
pub open spec fn acknowledged(
    authorizations: Seq<AuthorizationView>,
    replies: Seq<ChallengeView>,
) -> Seq<ChallengeView> {
    Seq::new(
        lesser(authorizations.len(), replies.len()),
        |i: int| ChallengeView { domain: authorizations[i].challenge.domain, ..replies[i] },
    )
}

/// Whether the certificate of an order can be had: the order is valid, the
/// authority has named the certificate's address, and the private key of the
/// signing request is at hand.
pub open spec fn downloadable(order: OrderView) -> bool {
    &&& order_status_of(order.data.status) == OrderStatus::Valid
    &&& order.data.certificate is Some
    &&& order.private_key is Some
}

/// Whether `r` and `after` are what comes of an outcome of generating a
/// signing request for an order in the state `before`.
///
/// Of a request that was made, the payload to submit is the Base64 text of
/// the request, and the order keeps the private key that belongs to it.
/// Where no key pair could be made or the request could not be serialized,
/// the call fails with `CertificateSerialize` and the text that says why,
/// and where the request is too long to encode, with `TooLarge`. In all
/// three the order stays as it was.
pub open spec fn finalized(
    before: OrderView,
    generation: Generation,
    after: OrderView,
    r: Result<Payload, Error>,
) -> bool {
    match generation {
        Generation::NoKeyPair(text) => r == Err::<Payload, Error>(
            Error::CertificateSerialize(text),
        ) && after == before,
        Generation::Unserializable(text) => r == Err::<Payload, Error>(
            Error::CertificateSerialize(text),
        ) && after == before,
        Generation::Done(made) => if made.request@.len() > base64_limit() {
            r == Err::<Payload, Error>(Error::TooLarge) && after == before
        } else {
            &&& r is Ok
            &&& r->Ok_0@ == (PayloadView::Finalize { csr: base64url_text(made.request@) })
            &&& after == (OrderView { private_key: Some(made.private_key@), ..before })
        },
    }
}

/// Whether a signing request was generated for exactly these names, where
/// one was generated at all.
pub open spec fn generated_for(generation: Generation, names: Seq<Seq<char>>) -> bool {
    generation matches Generation::Done(made) ==> made.names.deep_view() == names
}

/// The values of a list of identifiers.
pub open spec fn identifier_values(ids: Seq<IdentifierView>) -> Seq<Seq<char>> {
    Seq::new(ids.len(), |i: int| ids[i].value)
}

impl Order {
    /// A new order at `url` with the resource `data`, issued under the
    /// account key with the given thumbprint. It has no private key yet.
    pub fn new(url: String, data: OrderData, thumbprint: String) -> (order: Order)
        ensures
            order@ == (OrderView {
                url: url@,
                data: data@,
                thumbprint: thumbprint@,
                private_key: None,
            }),
    {
        Order { url, data, thumbprint, private_key: None }
    }

    /// The order's address.
    pub fn url(&self) -> (url: &String)
        ensures
            url@ == self@.url,
    {
        &self.url
    }

    /// The order resource as last read.
    pub fn data(&self) -> (data: &OrderData)
        ensures
            data@ == self@.data,
    {
        &self.data
    }

    /// Retrieve authorizations for this order from the resources `fetched`,
    /// the `i`-th of them read from the order's `i`-th authorization
    /// address, returning only those that offer a challenge of the given
    /// type. An identifier without such a challenge is left out.
    pub fn authorize(&self, ct: ChallengeType, fetched: Vec<AuthData>) -> (authorizations: Vec<
        Authorization,
    >)
        ensures
            authorizations.deep_view() == authorized(
                self@.data.authorizations,
                fetched.deep_view(),
                challenge_type_text(ct),
                self@.thumbprint,
            ),
    {
        let kind: &str = ct.as_str();
        let ghost urls = self@.data.authorizations;
        let ghost all = fetched.deep_view();
        let mut authorizations: Vec<Authorization> = Vec::new();
        let mut fetched = fetched;
        let mut rest: Vec<AuthData> = Vec::new();
        // Take the resources from the back, so that each can be moved out.
        while fetched.len() > 0
            invariant
                fetched.len() + rest.len() == all.len(),
                forall|j: int| 0 <= j < fetched.len() ==> fetched.deep_view()[j] == all[j],
                forall|j: int|
                    0 <= j < rest.len() ==> rest.deep_view()[j] == all[all.len() - 1 - j],
            decreases fetched.len(),
        {
            let ghost moved = rest.deep_view();
            let data = fetched.pop().unwrap();
            rest.push(data);
            proof {
                assert forall|j: int| 0 <= j < rest.len() implies rest.deep_view()[j]
                    == all[all.len() - 1 - j] by {
                    if j < rest.len() - 1 {
                        assert(rest.deep_view()[j] == moved[j]);
                    }
                }
            }
        }
        let mut i: usize = 0;
        while i < self.data.authorizations.len() && rest.len() > 0
            invariant
                i + rest.len() == all.len(),
                i <= urls.len(),
                urls == self@.data.authorizations,
                urls.len() == self.data.authorizations.len(),
                kind@ == challenge_type_text(ct),
                forall|j: int|
                    0 <= j < rest.len() ==> rest.deep_view()[j] == all[all.len() - 1 - j],
                authorizations.deep_view() == authorized_first(
                    urls,
                    all,
                    kind@,
                    self@.thumbprint,
                    i as nat,
                ),
            decreases rest.len(),
        {
            let ghost before = rest.deep_view();
            let data = rest.pop().unwrap();
            assert(data@ == before[before.len() - 1]);
            let url = self.data.authorizations[i].as_str();
            let made_now = Authorization::matching(url, data, kind, self.thumbprint.as_str());
            match made_now {
                Some(authorization) => {
                    authorizations.push(authorization);
                },
                None => {},
            }
            i += 1;
            proof {
                assert forall|j: int| 0 <= j < rest.len() implies rest.deep_view()[j]
                    == all[all.len() - 1 - j] by {
                    assert(rest.deep_view()[j] == before[j]);
                }
            }
        }
        authorizations
    }

    /// Pairs the challenges as the authority acknowledged them, `replies`,
    /// with the authorizations whose readiness was signalled: the `i`-th
    /// reply takes the domain of the `i`-th authorization's challenge.
    pub fn ready(&self, authorizations: Vec<Authorization>, replies: Vec<Challenge>) -> (challenges:
        Vec<Challenge>)
        ensures
            challenges.deep_view() == acknowledged(
                authorizations.deep_view(),
                replies.deep_view(),
            ),
    {
        let mut challenges: Vec<Challenge> = Vec::new();
        let mut i: usize = 0;
        while i < replies.len() && i < authorizations.len()
            invariant
                i <= replies.len(),
                i <= authorizations.len(),
                challenges.len() == i,
                forall|j: int|
                    0 <= j < i ==> challenges.deep_view()[j] == acknowledged(
                        authorizations.deep_view(),
                        replies.deep_view(),
                    )[j],
            decreases replies.len() - i,
        {
            let ghost before = challenges.deep_view();
            let mut challenge = replies[i].clone();
            challenge.domain = authorizations[i].challenge.domain.clone();
            challenges.push(challenge);
            i += 1;
            proof {
                assert forall|j: int| 0 <= j < i implies challenges.deep_view()[j] == acknowledged(
                    authorizations.deep_view(),
                    replies.deep_view(),
                )[j] by {
                    if j < i - 1 {
                        assert(challenges.deep_view()[j] == before[j]);
                    }
                }
            }
        }
        challenges
    }

    /// Takes `data`, the order resource as just read, for the order's own,
    /// and tells the order's state by it.
    pub fn status(&mut self, data: OrderData) -> (status: OrderStatus)
        ensures
            final(self)@ == (OrderView { data: data@, ..old(self)@ }),
            status == order_status_of(data.status@),
    {
        self.data = data;
        OrderStatus::from(self.data.status.as_str())
    }

    /// The state of the order by the resource as last read.
    pub fn last_status(&self) -> (status: OrderStatus)
        ensures
            status == order_status_of(self@.data.status),
    {
        OrderStatus::from(self.data.status.as_str())
    }

    /// The address that signing requests are submitted to.
    pub fn finalize_url(&self) -> (url: &String)
        ensures
            url@ == self@.data.finalize,
    {
        &self.data.finalize
    }

    /// The names that a certificate for this order holds: the values of the
    /// order's identifiers, in their order.
    pub fn names(&self) -> (names: Vec<String>)
        ensures
            names.deep_view() == identifier_values(self@.data.identifiers),
    {
        let mut names: Vec<String> = Vec::new();
        let mut i: usize = 0;
        while i < self.data.identifiers.len()
            invariant
                i <= self.data.identifiers.len(),
                names.len() == i,
                forall|j: int|
                    0 <= j < i ==> names.deep_view()[j] == self.data.identifiers.deep_view()[j].value,
            decreases self.data.identifiers.len() - i,
        {
            let ghost before = names.deep_view();
            names.push(self.data.identifiers[i].value.clone());
            i += 1;
            proof {
                assert forall|j: int| 0 <= j < i implies names.deep_view()[j]
                    == self.data.identifiers.deep_view()[j].value by {
                    if j < i - 1 {
                        assert(names.deep_view()[j] == before[j]);
                    }
                }
            }
        }
        names
    }

    /// Takes the outcome of generating a signing request. Of a request that
    /// was made, the order keeps the private key and hands back the payload
    /// to submit: the Base64 text of the request. Where no key pair could be
    /// made, the request could not be serialized, or it is too long to
    /// encode, the call fails and the order stays as it was.
    pub fn finalize_with(&mut self, generation: Generation) -> (r: Result<Payload, Error>)
        ensures
            finalized(old(self)@, generation, final(self)@, r),
    {
        match generation {
            Generation::NoKeyPair(text) => Err(Error::CertificateSerialize(text)),
            Generation::Unserializable(text) => Err(Error::CertificateSerialize(text)),
            Generation::Done(made) => {
                match base64url(made.request.as_slice()) {
                    Some(csr) => {
                        self.private_key = Some(made.private_key);
                        Ok(Payload::Finalize { csr })
                    },
                    None => Err(Error::TooLarge),
                }
            },
        }
    }

    /// Generates a fresh key pair and a signing request over the order's
    /// names, with an empty distinguished name, and hands back the payload
    /// to submit to the order's finalize address. The order keeps the key
    /// pair's private key for the download.
    ///
    /// A signing request holds names in ASCII only: where one of the
    /// order's names is not ASCII, the call fails with
    /// `CertificateSerialize` and the order stays as it was.
    ///
    /// Otherwise the key pair is random, so which request comes back is
    /// left open. Whatever the generation came to, it was asked for the
    /// order's names, and the result and the order afterwards are what
    /// `finalize_with` makes of that outcome: the payload is the Base64 text
    /// of the very request whose private key the order now holds, the only
    /// failures are `CertificateSerialize` and `TooLarge`, and an order that
    /// gets no payload stays as it was.
    pub fn finalize(&mut self) -> (r: Result<Payload, Error>)
        ensures
            !all_ascii(identifier_values(old(self)@.data.identifiers)) ==> r is Err && r->Err_0
                is CertificateSerialize && final(self)@ == old(self)@,
            all_ascii(identifier_values(old(self)@.data.identifiers)) ==> exists|
                generation: Generation,
            |
                generated_for(generation, identifier_values(old(self)@.data.identifiers))
                    && #[trigger] finalized(old(self)@, generation, final(self)@, r),
            final(self)@.url == old(self)@.url,
            final(self)@.data == old(self)@.data,
            final(self)@.thumbprint == old(self)@.thumbprint,
            r matches Ok(payload) ==> payload@ is Finalize && final(self)@.private_key is Some,
            r matches Err(e) ==> (e is CertificateSerialize || e is TooLarge) && final(self)@
                == old(self)@,
    {
        let names = self.names();
        let mut i: usize = 0;
        while i < names.len()
            invariant
                i <= names.len(),
                *self == *old(self),
                names.deep_view() == identifier_values(old(self)@.data.identifiers),
                forall|j: int| 0 <= j < i ==> is_ascii_chars(#[trigger] names.deep_view()[j]),
            decreases names.len() - i,
        {
            assert(names.deep_view()[i as int] == names[i as int]@);
            if !names[i].as_str().is_ascii() {
                return Err(
                    Error::CertificateSerialize("a name of the order is not ASCII".to_string()),
                );
            }
            i += 1;
        }
        let generation = generate_request(names);
        let ghost outcome = generation;
        let r = self.finalize_with(generation);
        assert(generated_for(outcome, identifier_values(old(self)@.data.identifiers))
            && finalized(old(self)@, outcome, self@, r));
        r
    }

    /// Decides what reading the order's `index`-th authorization needs
    /// next: a signed POST without a payload to its address. `None` where
    /// the order has no such authorization; the account then stays as it
    /// is.
    pub fn request_authorization(&self, account: &mut Account, index: usize) -> (r: Option<
        Result<Step, Error>,
    >)
        ensures
            same_identity(old(account)@, final(account)@),
            if index < self@.data.authorizations.len() {
                r is Some && posts(
                    old(account)@,
                    final(account)@,
                    self@.data.authorizations[index as int],
                    PayloadView::Empty,
                    r->0,
                )
            } else {
                r is None && final(account)@ == old(account)@
            },
    {
        if index < self.data.authorizations.len() {
            Some(account.post(self.data.authorizations[index].as_str(), &Payload::Empty))
        } else {
            None
        }
    }

    /// Decides what reading the order resource needs next: a signed POST
    /// without a payload to the order's address.
    pub fn request_status(&self, account: &mut Account) -> (r: Result<Step, Error>)
        ensures
            same_identity(old(account)@, final(account)@),
            posts(old(account)@, final(account)@, self@.url, PayloadView::Empty, r),
    {
        account.post(self.url.as_str(), &Payload::Empty)
    }

    /// Decides what submitting `payload`, the signing request that
    /// `finalize` handed back, needs next: a signed POST to the order's
    /// finalize address.
    pub fn request_finalize(&self, account: &mut Account, payload: &Payload) -> (r: Result<
        Step,
        Error,
    >)
        ensures
            same_identity(old(account)@, final(account)@),
            posts(old(account)@, final(account)@, self@.data.finalize, payload@, r),
    {
        account.post(self.data.finalize.as_str(), payload)
    }

    /// Decides what the download of the certificate needs next: a signed
    /// POST without a payload to the certificate's address.
    /// `CertificateUnavailable`, with the account as it was, unless the
    /// order is valid, names that address and holds a private key.
    pub fn request_certificate(&self, account: &mut Account) -> (r: Result<Step, Error>)
        ensures
            same_identity(old(account)@, final(account)@),
            downloadable(self@) ==> posts(
                old(account)@,
                final(account)@,
                self@.data.certificate->0,
                PayloadView::Empty,
                r,
            ),
            !downloadable(self@) ==> r == Err::<Step, Error>(Error::CertificateUnavailable)
                && final(account)@ == old(account)@,
    {
        match self.certificate_url() {
            Ok(url) => account.post(url.as_str(), &Payload::Empty),
            Err(e) => Err(e),
        }
    }

    /// The address of the certificate. `CertificateUnavailable` unless the
    /// order is valid, names that address and holds a private key.
    pub fn certificate_url(&self) -> (r: Result<&String, Error>)
        ensures
            downloadable(self@) ==> r is Ok && Some(r->Ok_0@) == self@.data.certificate,
            !downloadable(self@) ==> r == Err::<&String, Error>(Error::CertificateUnavailable),
    {
        match self.last_status() {
            OrderStatus::Valid => match (&self.data.certificate, &self.private_key) {
                (Some(url), Some(_)) => Ok(url),
                _ => Err(Error::CertificateUnavailable),
            },
            _ => Err(Error::CertificateUnavailable),
        }
    }

    /// Pairs the certificate chain, the body of the answer from the
    /// certificate's address, with the private key of the signing request.
    ///
    /// Fails with `CertificateUnavailable` exactly where the order is not
    /// valid, names no certificate address or holds no private key, else
    /// with `ResponseIntoString` exactly where the body is not UTF-8.
    pub fn download(&self, response: Response) -> (r: Result<(String, Vec<u8>), Error>)
        ensures
            !downloadable(self@) ==> r == Err::<(String, Vec<u8>), Error>(
                Error::CertificateUnavailable,
            ),
            downloadable(self@) && !valid_utf8(response.body@) ==> r is Err && r->Err_0
                is ResponseIntoString,
            downloadable(self@) && valid_utf8(response.body@) ==> r is Ok && r->Ok_0.0@
                == decode_utf8(response.body@) && Some(r->Ok_0.1@) == self@.private_key,
    {
        match self.last_status() {
            OrderStatus::Valid => match (&self.data.certificate, &self.private_key) {
                (Some(_), Some(key)) => match text_from_utf8(response.body) {
                    Ok(pem) => Ok((pem, key.clone())),
                    Err(text) => Err(Error::ResponseIntoString(text)),
                },
                _ => Err(Error::CertificateUnavailable),
            },
            _ => Err(Error::CertificateUnavailable),
        }
    }
}

} // verus!

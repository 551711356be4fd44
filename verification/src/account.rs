//! The account: the key ring, the authority's directory, the nonce that the
//! next signed request will use, and the orders made so far.

use crate::codec::{encode, encoded, Records};
use crate::crypto::{is_key, signed, too_large, Crypto, CryptoView};
use crate::encoding::{json_string, json_string_list, json_string_text, parse_string_list};
use crate::json::{string_array, string_array_text};
use crate::model::{
    classified, clone_text, Directory, DirectoryView, Error, Method, Outcome, Response,
};
use crate::order::{Order, OrderData, OrderView};
use crate::payload::{dns_identifiers, Payload, PayloadView};
use crate::signed_json::{HeaderKeyView, SignedJson};
use vstd::prelude::*;
use vstd::utf8::encode_utf8;

verus! {

/// An account resource as the authority sends it.
#[derive(Debug)]
pub struct AccountData {
    pub status: String,
    pub contact: Option<Vec<String>>,
    pub orders: Option<String>,
}

/// Necessary data for keeping track of account state.
#[derive(Debug)]
pub struct Account {
    directory: Directory,
    crypto: Crypto,
    nonce: Option<String>,
    data: Option<AccountData>,
    order_urls: Vec<String>,
}

/// An `Account` as plain values.
pub struct AccountView {
    pub directory: DirectoryView,
    pub crypto: CryptoView,
    pub nonce: Option<Seq<char>>,
    pub data: Option<AccountData>,
    pub order_urls: Seq<Seq<char>>,
}

impl View for Account {
    type V = AccountView;

    closed spec fn view(&self) -> AccountView {
        AccountView {
            directory: self.directory@,
            crypto: self.crypto@,
            nonce: self.nonce.deep_view(),
            data: self.data,
            order_urls: self.order_urls.deep_view(),
        }
    }
}

/// What a signed POST needs next.
#[derive(Debug)]
pub enum Step {
    /// No nonce is at hand: fetch one from this address, hand the outcome to
    /// `accept_nonce`, and ask again.
    FetchNonce(String),
    /// Post this signed request to this address, and hand the outcome to
    /// `receive`.
    Send { url: String, request: SignedJson },
}

/// What happens to the nonce that an account holds.
pub enum NonceEvent {
    /// The authority supplied a nonce, or answered without one.
    Supplied(Option<Seq<char>>),
    /// A request was signed.
    Signed,
}

/// The nonce that an account holds after an event: what the authority
/// supplied takes the place of the nonce held, and signing a request leaves
/// none.
pub open spec fn nonce_after(held: Option<Seq<char>>, event: NonceEvent) -> Option<Seq<char>> {
    match event {
        NonceEvent::Supplied(nonce) => nonce,
        NonceEvent::Signed => None,
    }
}

/// The nonces held after a run of events, and the nonces that its signed
/// requests used, in their order. A request is signed only with a nonce at
/// hand.
pub open spec fn nonce_run(held: Option<Seq<char>>, events: Seq<NonceEvent>) -> (
    Option<Seq<char>>,
    Seq<Seq<char>>,
)
    decreases events.len(),
{
    if events.len() == 0 {
        (held, Seq::empty())
    } else {
        let (before, used) = nonce_run(held, events.drop_last());
        let now = nonce_after(before, events.last());
        match (events.last(), before) {
            (NonceEvent::Signed, Some(nonce)) => (now, used.push(nonce)),
            _ => (now, used),
        }
    }
}

/// Whether the authority supplied no nonce twice in a run of events.
pub open spec fn supplies_differ(events: Seq<NonceEvent>) -> bool {
    forall|i: int, j: int|
        0 <= i < j < events.len() && events[i] is Supplied && events[j] is Supplied
            && events[i]->Supplied_0 is Some ==> events[i]->Supplied_0 != events[j]->Supplied_0
}

/// Where the nonces of a run of events came from: the place of the event
/// that supplied the nonce held at the end, and for each signed request, in
/// their order, the place of the event that supplied its nonce.
pub open spec fn nonce_sources(events: Seq<NonceEvent>) -> (Option<int>, Seq<int>)
    decreases events.len(),
{
    if events.len() == 0 {
        (None, Seq::empty())
    } else {
        let (before, used) = nonce_sources(events.drop_last());
        match events.last() {
            NonceEvent::Supplied(Some(_)) => (Some(events.len() - 1), used),
            NonceEvent::Supplied(None) => (None, used),
            NonceEvent::Signed => match before {
                Some(source) => (None, used.push(source)),
                None => (None, used),
            },
        }
    }
}

/// From an account that holds no nonce, every signed request uses a nonce
/// that the authority supplied, and each supply serves one request at most:
/// the requests take their nonces from different events, each later than
/// the one before, and the nonce held at the end is from a later event
/// still.
pub proof fn each_request_uses_a_new_supply(events: Seq<NonceEvent>)
    ensures
        ({
            let (held, used) = nonce_run(None, events);
            let (held_from, sources) = nonce_sources(events);
            &&& sources.len() == used.len()
            &&& forall|k: int|
                0 <= k < used.len() ==> 0 <= #[trigger] sources[k] < events.len()
                    && events[sources[k]] == NonceEvent::Supplied(Some(used[k]))
            &&& forall|k: int, l: int|
                0 <= k < l < used.len() ==> #[trigger] sources[k] < #[trigger] sources[l]
            &&& held is Some <==> held_from is Some
            &&& held_from matches Some(source) ==> 0 <= source < events.len() && events[source]
                == NonceEvent::Supplied(held) && forall|k: int|
                0 <= k < used.len() ==> #[trigger] sources[k] < source
        }),
    decreases events.len(),
{
    if events.len() > 0 {
        let earlier = events.drop_last();
        each_request_uses_a_new_supply(earlier);
        let (held, used) = nonce_run(None, events);
        let (held_from, sources) = nonce_sources(events);
        let (used_before, sources_before) = (
            nonce_run(None, earlier).1,
            nonce_sources(earlier).1,
        );
        if let Some(source) = held_from {
        }
    }
}

/// From an account that holds no nonce, and while the authority supplies no
/// nonce twice, no two signed requests use the same nonce; in particular no
/// two that follow one another.
pub proof fn nonces_never_repeat(events: Seq<NonceEvent>)
    requires
        supplies_differ(events),
    ensures
        forall|k: int, l: int|
            0 <= k < l < nonce_run(None, events).1.len() ==> nonce_run(None, events).1[k]
                != nonce_run(None, events).1[l],
        forall|k: int|
            0 <= k && k + 1 < nonce_run(None, events).1.len() ==> #[trigger] nonce_run(
                None,
                events,
            ).1[k] != nonce_run(None, events).1[k + 1],
{
    each_request_uses_a_new_supply(events);
    let used = nonce_run(None, events).1;
    let sources = nonce_sources(events).1;
    assert forall|k: int, l: int| 0 <= k < l < used.len() implies used[k] != used[l] by {
        let i = sources[k];
        let j = sources[l];
        assert(i < j);
        assert(events[i] == NonceEvent::Supplied(Some(used[k])));
        assert(events[j] == NonceEvent::Supplied(Some(used[l])));
    }
}

/// The JSON text of a directory: its four endpoints, and the account's
/// address or `null`.
pub open spec fn directory_text(directory: DirectoryView) -> Seq<char> {
    "{\"newNonce\":"@ + json_string_text(directory.new_nonce) + ",\"newAccount\":"@
        + json_string_text(directory.new_account) + ",\"newOrder\":"@ + json_string_text(
        directory.new_order,
    ) + ",\"revokeCert\":"@ + json_string_text(directory.revoke_cert) + ",\"account\":"@ + (
    match directory.account {
        Some(url) => json_string_text(url),
        None => "null"@,
    }) + "}"@
}

/// Writes the JSON text of a directory.
pub fn directory_json(directory: &Directory) -> (out: String)
    ensures
        out@ == directory_text(directory@),
{
    let mut out = String::new();
    out.append("{\"newNonce\":");
    out.append(json_string(directory.new_nonce.as_str()).as_str());
    out.append(",\"newAccount\":");
    out.append(json_string(directory.new_account.as_str()).as_str());
    out.append(",\"newOrder\":");
    out.append(json_string(directory.new_order.as_str()).as_str());
    out.append(",\"revokeCert\":");
    out.append(json_string(directory.revoke_cert.as_str()).as_str());
    out.append(",\"account\":");
    match &directory.account {
        Some(url) => {
            out.append(json_string(url.as_str()).as_str());
        },
        None => {
            out.append("null");
        },
    }
    out.append("}");
    out
}

/// The header key of an account whose directory names `account` as its
/// address: that address where there is one, else the public key.
pub open spec fn header_key_for(key: Seq<u8>, account: Option<Seq<char>>) -> HeaderKeyView {
    match account {
        Some(url) => HeaderKeyView::Kid(url),
        None => crate::crypto::jwk_of(key),
    }
}

/// Whether an account's parts belong together: the key is a secret key, the
/// thumbprint is that of the key, and the header names the key by the
/// account's address exactly where the directory holds one.
pub open spec fn well_formed(account: AccountView) -> bool {
    &&& is_key(account.crypto.key)
    &&& account.crypto.thumbprint == crate::crypto::thumbprint_of(account.crypto.key)
    &&& account.crypto.header_key == header_key_for(account.crypto.key, account.directory.account)
}

/// Whether an account is still the same after a step: its key and its
/// thumbprint are as before, a header that named the key by the account's
/// address still does, and the parts still belong together if they did.
pub open spec fn same_identity(before: AccountView, after: AccountView) -> bool {
    &&& after.crypto.key == before.crypto.key
    &&& after.crypto.thumbprint == before.crypto.thumbprint
    &&& before.crypto.header_key is Kid ==> after.crypto.header_key is Kid
    &&& well_formed(before) ==> well_formed(after)
}

/// The stream that an account is persisted as: the records of its raw key,
/// of its directory as JSON and of its order addresses as JSON.
pub open spec fn persisted(account: AccountView) -> Seq<u8> {
    encoded(
        account.crypto.key,
        encode_utf8(directory_text(account.directory)),
        encode_utf8(string_array_text(account.order_urls)),
    )
}

/// What the stream of an account decodes to: the account's key and the JSON
/// texts of its directory and of its order addresses, as they were written.
pub open spec fn persisted_payloads(account: AccountView) -> (Seq<u8>, Seq<u8>, Option<Seq<u8>>) {
    (
        account.crypto.key,
        encode_utf8(directory_text(account.directory)),
        Some(encode_utf8(string_array_text(account.order_urls))),
    )
}

/// The stream of an account decodes to the account's key and to the JSON
/// texts of its directory and of its order addresses, as they were written,
/// provided that each of the three is short enough for its length to fit
/// the eight bytes of a record's length field.
pub proof fn persisted_round_trip(account: AccountView)
    ensures
        account.crypto.key.len() <= u64::MAX && encode_utf8(
            directory_text(account.directory),
        ).len() <= u64::MAX && encode_utf8(string_array_text(account.order_urls)).len()
            <= u64::MAX ==> crate::codec::decoded(persisted(account)) == Some(
            persisted_payloads(account),
        ),
{
    let (key, directory, order_urls) = persisted_payloads(account);
    if key.len() <= u64::MAX && directory.len() <= u64::MAX && order_urls->0.len() <= u64::MAX {
        crate::codec::decoded_of_encoded(key, directory, order_urls->0);
    }
}

/// The key ring of an account is determined by its key and by the address
/// in its directory: two accounts whose parts belong together and that
/// agree in these two, as an account and the one loaded from its stream do,
/// have the same key ring and sign every request alike.
pub proof fn same_key_signs_alike(
    a: AccountView,
    b: AccountView,
    url: Seq<char>,
    nonce: Seq<char>,
    payload: crate::payload::PayloadView,
)
    requires
        well_formed(a),
        well_formed(b),
        a.crypto.key == b.crypto.key,
        a.directory.account == b.directory.account,
    ensures
        a.crypto == b.crypto,
        too_large(a.crypto.header_key, url, nonce, payload) == too_large(
            b.crypto.header_key,
            url,
            nonce,
            payload,
        ),
        signed(a.crypto.key, a.crypto.header_key, url, nonce, payload) == signed(
            b.crypto.key,
            b.crypto.header_key,
            url,
            nonce,
            payload,
        ),
{
}

/// Whether `r` is what a signed POST of `payload` to `url` needs next for an
/// account in the state `before`, and `after` is the account's state then.
///
/// Without a nonce at hand the account stays as it is and the step is to
/// fetch one from the directory's nonce endpoint. With a nonce at hand the
/// nonce is used up; the result is `TooLarge` where a segment is too long to
/// encode, else `Signature` where the signing operation fails, else the step
/// to send the request signed with that nonce to `url`.
pub open spec fn posts(
    before: AccountView,
    after: AccountView,
    url: Seq<char>,
    payload: PayloadView,
    r: Result<Step, Error>,
) -> bool {
    match before.nonce {
        None => after == before && (r matches Ok(Step::FetchNonce(address)) && address@
            == before.directory.new_nonce),
        Some(nonce) => {
            &&& after == AccountView {
                nonce: nonce_after(before.nonce, NonceEvent::Signed),
                ..before
            }
            &&& if too_large(before.crypto.header_key, url, nonce, payload) {
                r == Err::<Step, Error>(Error::TooLarge)
            } else {
                match signed(before.crypto.key, before.crypto.header_key, url, nonce, payload) {
                    Some(envelope) => (r matches Ok(Step::Send { url: to, request }) && to@ == url
                        && request@ == envelope),
                    None => r == Err::<Step, Error>(Error::Signature),
                }
            }
        },
    }
}

impl Account {
    /// Whether the account's parts belong together.
    pub open spec fn wf(&self) -> bool {
        well_formed(self@)
    }

    /// Generate a new account for the authority with the given directory: a
    /// fresh signing key, named in the header by its public key, no nonce,
    /// no orders, and no address until the account is registered.
    pub fn generate(directory: Directory) -> (r: Result<Account, Error>)
        ensures
            r is Ok,
            r->Ok_0.wf(),
            r->Ok_0@.directory == (DirectoryView { account: None, ..directory@ }),
            r->Ok_0@.nonce is None,
            r->Ok_0@.data is None,
            r->Ok_0@.order_urls == Seq::<Seq<char>>::empty(),
    {
        let mut directory = directory;
        directory.account = None;
        match Crypto::generate() {
            Ok(crypto) => {
                let account = Account {
                    directory,
                    crypto,
                    nonce: None,
                    data: None,
                    order_urls: Vec::new(),
                };
                Ok(account)
            },
            Err(e) => Err(e),
        }
    }

    /// The account of a decoded stream and its directory, as parsed from the
    /// stream's directory payload. Where the directory holds the account's
    /// address, the header names the key by it from the start.
    ///
    /// Fails with `SigningKeyFromBytes` exactly where the key payload is not
    /// a secret key of 32 bytes, else with `JsonFromBytes` exactly where the
    /// payload of order addresses is not the JSON text of a list of strings.
    /// A stream without that payload has no orders.
    pub fn from_records(records: &Records, directory: Directory) -> (r: Result<Account, Error>)
        ensures
            !is_key(records.key@) ==> r is Err && r->Err_0 is SigningKeyFromBytes,
            is_key(records.key@) && records.order_urls is Some && json_string_list(
                records.order_urls->0@,
            ) is None ==> r is Err && r->Err_0 is JsonFromBytes,
            is_key(records.key@) && (records.order_urls is Some ==> json_string_list(
                records.order_urls->0@,
            ) is Some) ==> {
                &&& r is Ok
                &&& r->Ok_0.wf()
                &&& r->Ok_0@.crypto.key == records.key@
                &&& r->Ok_0@.directory == directory@
                &&& r->Ok_0@.nonce is None
                &&& r->Ok_0@.data is None
                &&& r->Ok_0@.order_urls == match records.order_urls {
                    Some(bytes) => json_string_list(bytes@)->0,
                    None => Seq::<Seq<char>>::empty(),
                }
            },
    {
        let mut crypto = match Crypto::try_from(records.key.as_slice()) {
            Ok(crypto) => crypto,
            Err(e) => {
                return Err(e);
            },
        };
        let order_urls = match &records.order_urls {
            Some(bytes) => match parse_string_list(bytes.as_slice()) {
                Ok(urls) => urls,
                Err(text) => {
                    return Err(Error::JsonFromBytes(text));
                },
            },
            None => {
                let urls: Vec<String> = Vec::new();
                urls
            },
        };
        match &directory.account {
            Some(kid) => {
                crypto.set_key_id(kid.clone());
            },
            None => {},
        }
        Ok(Account { directory, crypto, nonce: None, data: None, order_urls })
    }

    /// The authority's directory, with the account's address once it has
    /// one.
    pub fn directory(&self) -> (directory: &Directory)
        ensures
            directory@ == self@.directory,
    {
        &self.directory
    }

    /// The account's key ring.
    pub fn crypto(&self) -> (crypto: &Crypto)
        ensures
            crypto@ == self@.crypto,
    {
        &self.crypto
    }

    /// The nonce that the next signed request will use, where one is held.
    pub fn nonce(&self) -> (nonce: &Option<String>)
        ensures
            nonce.deep_view() == self@.nonce,
    {
        &self.nonce
    }

    /// The account resource as the authority last sent it.
    pub fn data(&self) -> (data: &Option<AccountData>)
        ensures
            *data == self@.data,
    {
        &self.data
    }

    /// The addresses of the orders made under this account.
    pub fn order_urls(&self) -> (urls: &Vec<String>)
        ensures
            urls.deep_view() == self@.order_urls,
    {
        &self.order_urls
    }

    /// Extracts the nonce from the given response and stores it in place of
    /// the nonce held; a response without a nonce leaves none.
    pub fn set_nonce(&mut self, response: &Response)
        ensures
            same_identity(old(self)@, final(self)@),
            final(self)@ == (AccountView {
                nonce: nonce_after(
                    old(self)@.nonce,
                    NonceEvent::Supplied(response.nonce.deep_view()),
                ),
                ..old(self)@
            }),
    {
        self.nonce = clone_text(&response.nonce);
    }

    /// Takes the outcome of fetching a nonce. The nonce of a successful
    /// answer is stored for the next signed request. An answer without a
    /// nonce, an answer with an error status and an exchange that failed
    /// leave the account as it was and are handed back as errors.
    pub fn accept_nonce(&mut self, outcome: Outcome) -> (r: Result<(), Error>)
        ensures
            same_identity(old(self)@, final(self)@),
            match classified(Method::Head, outcome) {
                Ok(response) => match response.nonce {
                    Some(nonce) => r is Ok && final(self)@ == (AccountView {
                        nonce: nonce_after(
                            old(self)@.nonce,
                            NonceEvent::Supplied(Some(nonce@)),
                        ),
                        ..old(self)@
                    }),
                    None => r == Err::<(), Error>(Error::ResponseLacksNonce(response))
                        && final(self)@ == old(self)@,
                },
                Err(e) => r == Err::<(), Error>(e) && final(self)@ == old(self)@,
            },
    {
        match outcome.classify(Method::Head) {
            Ok(response) => {
                if response.nonce.is_some() {
                    self.nonce = clone_text(&response.nonce);
                    Ok(())
                } else {
                    Err(Error::ResponseLacksNonce(response))
                }
            },
            Err(e) => Err(e),
        }
    }

    /// Decides what a signed POST of `payload` to `url` needs next.
    ///
    /// Without a nonce at hand the account stays as it is and the step is to
    /// fetch one from the directory's nonce endpoint. With a nonce at hand
    /// the nonce is used up, whatever comes of the signing, and the step is
    /// to send the request signed with it.
    pub fn post(&mut self, url: &str, payload: &Payload) -> (r: Result<Step, Error>)
        ensures
            same_identity(old(self)@, final(self)@),
            posts(old(self)@, final(self)@, url@, payload@, r),
    {
        match self.nonce.take() {
            Some(nonce) => {
                match self.crypto.sign(url, nonce.as_str(), payload) {
                    Ok(request) => Ok(Step::Send { url: url.to_string(), request }),
                    Err(e) => Err(e),
                }
            },
            None => Ok(Step::FetchNonce(self.directory.new_nonce.clone())),
        }
    }

    /// Decides what the registration of the account needs next: a signed
    /// POST of the request for a new account to the directory's endpoint
    /// for new accounts.
    pub fn request_registration(&mut self) -> (r: Result<Step, Error>)
        ensures
            same_identity(old(self)@, final(self)@),
            posts(
                old(self)@,
                final(self)@,
                old(self)@.directory.new_account,
                PayloadView::NewAccount { contact: Seq::empty(), terms_of_service_agreed: true },
                r,
            ),
    {
        let url = self.directory.new_account.clone();
        self.post(url.as_str(), &Payload::new_account())
    }

    /// Decides what reading the account resource needs next: a signed POST
    /// without a payload to the account's address. `None` where the account
    /// has no address; the account then stays as it is.
    pub fn request_refresh(&mut self) -> (r: Option<Result<Step, Error>>)
        ensures
            same_identity(old(self)@, final(self)@),
            match old(self)@.directory.account {
                Some(url) => r is Some && posts(
                    old(self)@,
                    final(self)@,
                    url,
                    PayloadView::Empty,
                    r->0,
                ),
                None => r is None && final(self)@ == old(self)@,
            },
    {
        match clone_text(&self.directory.account) {
            Some(url) => Some(self.post(url.as_str(), &Payload::Empty)),
            None => None,
        }
    }

    /// Decides what the creation of an order for `domains` needs next: a
    /// signed POST of the request for a new order, with one identifier of
    /// kind `dns` for each domain, to the directory's endpoint for new
    /// orders.
    pub fn request_order(&mut self, domains: &[&str]) -> (r: Result<Step, Error>)
        ensures
            same_identity(old(self)@, final(self)@),
            posts(
                old(self)@,
                final(self)@,
                old(self)@.directory.new_order,
                PayloadView::NewOrder { identifiers: dns_identifiers(domains.deep_view()) },
                r,
            ),
    {
        let url = self.directory.new_order.clone();
        self.post(url.as_str(), &Payload::new_order(domains))
    }

    /// Takes the outcome of a signed POST. Whatever the authority answered,
    /// success or error, the nonce of its answer takes the place of the
    /// nonce held, and an answer without one leaves none. An exchange that
    /// failed leaves the account as it was.
    pub fn receive(&mut self, outcome: Outcome) -> (r: Result<Response, Error>)
        ensures
            same_identity(old(self)@, final(self)@),
            r == classified(Method::Post, outcome),
            match outcome {
                Outcome::Replied(response) | Outcome::Refused(response) => final(self)@ == (
                AccountView {
                    nonce: nonce_after(
                        old(self)@.nonce,
                        NonceEvent::Supplied(response.nonce.deep_view()),
                    ),
                    ..old(self)@
                }),
                Outcome::Failed(_) => final(self)@ == old(self)@,
            },
    {
        match &outcome {
            Outcome::Replied(response) => {
                self.set_nonce(response);
            },
            Outcome::Refused(response) => {
                self.set_nonce(response);
            },
            Outcome::Failed(_) => {},
        }
        outcome.classify(Method::Post)
    }

    /// Completes the registration with the authority's answer and the
    /// account resource parsed from its body. The address that the answer
    /// names becomes the account's address, and from now on the header names
    /// the key by it.
    ///
    /// Fails with `ResponseLacksLocation` exactly where the answer names no
    /// address, else with `ResponseIntoJson` exactly where the body did not
    /// parse; the account then stays as it was.
    pub fn register(&mut self, response: Response, parsed: Result<AccountData, String>) -> (r:
        Result<(), Error>)
        ensures
            same_identity(old(self)@, final(self)@),
            match (response.location, parsed) {
                (None, _) => r == Err::<(), Error>(Error::ResponseLacksLocation(response))
                    && final(self)@ == old(self)@,
                (Some(_), Err(text)) => r == Err::<(), Error>(Error::ResponseIntoJson(text))
                    && final(self)@ == old(self)@,
                (Some(url), Ok(data)) => r is Ok && final(self)@ == (AccountView {
                    directory: DirectoryView { account: Some(url@), ..old(self)@.directory },
                    crypto: CryptoView {
                        header_key: HeaderKeyView::Kid(url@),
                        ..old(self)@.crypto
                    },
                    data: Some(data),
                    ..old(self)@
                }),
            },
    {
        if response.location.is_none() {
            return Err(Error::ResponseLacksLocation(response));
        }
        match parsed {
            Ok(data) => {
                let url = response.location.unwrap();
                self.crypto.set_key_id(url.clone());
                self.directory.account = Some(url);
                self.data = Some(data);
                Ok(())
            },
            Err(text) => Err(Error::ResponseIntoJson(text)),
        }
    }

    /// The account's address, where it is registered.
    pub fn account_url(&self) -> (url: &Option<String>)
        ensures
            url.deep_view() == self@.directory.account,
    {
        &self.directory.account
    }

    /// Takes `data`, the account resource as just read, for the account's
    /// own.
    pub fn refresh(&mut self, data: AccountData)
        ensures
            same_identity(old(self)@, final(self)@),
            final(self)@ == (AccountView { data: Some(data), ..old(self)@ }),
    {
        self.data = Some(data);
    }

    /// Completes the creation of an order with the authority's answer and
    /// the order resource parsed from its body. The address that the answer
    /// names is the order's address and is added to the account's orders.
    ///
    /// Fails with `ResponseLacksLocation` exactly where the answer names no
    /// address, else with `ResponseIntoJson` exactly where the body did not
    /// parse; the account then stays as it was.
    pub fn create_order(&mut self, response: Response, parsed: Result<OrderData, String>) -> (r:
        Result<Order, Error>)
        ensures
            same_identity(old(self)@, final(self)@),
            match (response.location, parsed) {
                (None, _) => r == Err::<Order, Error>(Error::ResponseLacksLocation(response))
                    && final(self)@ == old(self)@,
                (Some(_), Err(text)) => r == Err::<Order, Error>(Error::ResponseIntoJson(text))
                    && final(self)@ == old(self)@,
                (Some(url), Ok(data)) => {
                    &&& r is Ok
                    &&& r->Ok_0@ == (OrderView {
                        url: url@,
                        data: data@,
                        thumbprint: old(self)@.crypto.thumbprint,
                        private_key: None,
                    })
                    &&& final(self)@ == (AccountView {
                        order_urls: old(self)@.order_urls.push(url@),
                        ..old(self)@
                    })
                },
            },
    {
        if response.location.is_none() {
            return Err(Error::ResponseLacksLocation(response));
        }
        match parsed {
            Ok(data) => {
                let url = response.location.unwrap();
                self.order_urls.push(url.clone());
                proof {
                    assert(self.order_urls.deep_view() =~= old(self)@.order_urls.push(url@));
                }
                Ok(Order::new(url, data, self.crypto.thumbprint().clone()))
            },
            Err(text) => Err(Error::ResponseIntoJson(text)),
        }
    }

    /// Serialize necessary account data as bytes: the records of the raw
    /// signing key, of the directory as JSON and of the order addresses as
    /// JSON, in that order. Decoding the bytes gives the three payloads back.
    pub fn as_bytes(&self) -> (r: Result<Vec<u8>, Error>)
        ensures
            r is Ok,
            r->Ok_0@ == persisted(self@),
            crate::codec::decoded(r->Ok_0@) == Some(persisted_payloads(self@)),
    {
        let directory = directory_json(&self.directory);
        let urls = string_array(&self.order_urls);
        let key = self.crypto.key_bytes().as_slice();
        let directory_bytes = directory.as_str().as_bytes();
        let urls_bytes = urls.as_str().as_bytes();
        Ok(encode(key, directory_bytes, urls_bytes))
    }
}

} // verus!

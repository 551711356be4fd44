use acme_dns01::authorization::{select_challenge, AuthData, Authorization};
use acme_dns01::authorization::challenge_response as proof_of;
use acme_dns01::csr::{Generated, Generation};
use acme_dns01::model::{Challenge, ChallengeType, Error, Identifier, Response};
use acme_dns01::order::{Order, OrderData};
use acme_dns01::payload::Payload;
use acme_dns01::status::{AuthStatus, OrderStatus};
use base64ct::Encoding;

fn challenge(kind: &str, token: &str) -> Challenge {
    Challenge {
        kind: kind.to_string(),
        url: format!("https://ca.example/chall/{}/{}", kind, token),
        token: token.to_string(),
        status: Some("pending".to_string()),
        validated: None,
        domain: String::new(),
        response: String::new(),
    }
}

fn auth_data(status: &str, domain: &str, challenges: Vec<Challenge>) -> AuthData {
    AuthData {
        status: status.to_string(),
        expires: None,
        identifier: Identifier { kind: "dns".to_string(), value: domain.to_string() },
        challenges,
        wildcard: None,
    }
}

fn order_data(status: &str, domains: &[&str], certificate: Option<&str>) -> OrderData {
    OrderData {
        status: status.to_string(),
        expires: "2030-01-01T00:00:00Z".to_string(),
        identifiers: domains
            .iter()
            .map(|d| Identifier { kind: "dns".to_string(), value: d.to_string() })
            .collect(),
        authorizations: (0..domains.len())
            .map(|i| format!("https://ca.example/authz/{}", i))
            .collect(),
        finalize: "https://ca.example/finalize/1".to_string(),
        certificate: certificate.map(|s| s.to_string()),
    }
}

fn order(status: &str, domains: &[&str], certificate: Option<&str>) -> Order {
    Order::new(
        "https://ca.example/order/1".to_string(),
        order_data(status, domains, certificate),
        "thumb".to_string(),
    )
}

fn body(text: &str) -> Response {
    Response { status: 200, nonce: None, location: None, body: text.as_bytes().to_vec() }
}

fn generated() -> Generation {
    Generation::Done(Generated {
        names: vec!["a.example".to_string()],
        request: vec![1, 2, 3],
        private_key: vec![9, 8, 7],
    })
}

#[test]
fn select_first_matching_challenge() {
    let list = vec![
        challenge("http-01", "t0"),
        challenge("dns-01", "t1"),
        challenge("tls-alpn-01", "t2"),
        challenge("dns-01", "t3"),
    ];
    assert_eq!(select_challenge(&list, "dns-01"), Some(1));
    assert_eq!(select_challenge(&list, "http-01"), Some(0));
    assert_eq!(select_challenge(&list, "tls-alpn-01"), Some(2));
    assert_eq!(select_challenge(&list, "dns"), None);
    assert_eq!(select_challenge(&list, "DNS-01"), None);
    assert_eq!(select_challenge(&Vec::new(), "dns-01"), None);
}

#[test]
fn matching_stamps_proof_and_domain() {
    let data = auth_data(
        "pending",
        "example.com",
        vec![challenge("http-01", "h"), challenge("dns-01", "abc"), challenge("dns-01", "zzz")],
    );
    let made = Authorization::matching("https://ca.example/authz/0", data, "dns-01", "xyz").unwrap();
    assert_eq!(made.url, "https://ca.example/authz/0");
    assert_eq!(made.challenge.kind, "dns-01");
    assert_eq!(made.challenge.token, "abc");
    assert_eq!(made.challenge.url, "https://ca.example/chall/dns-01/abc");
    assert_eq!(made.challenge.status, Some("pending".to_string()));
    assert_eq!(made.challenge.domain, "example.com");
    assert_eq!(made.challenge.response, "iAbQi-Haa6_vs8Wn-g-fcM2jsogkYCH2-fUFCtNFcGM");
    // The resource is kept as it was sent: its challenges are not stamped.
    assert_eq!(made.data.challenges.len(), 3);
    assert_eq!(made.data.challenges[1].response, "");
    assert_eq!(made.data.challenges[1].domain, "");
    assert_eq!(made.status(), AuthStatus::Pending);
}

#[test]
fn matching_without_challenge_of_the_kind() {
    let data = auth_data("pending", "example.com", vec![challenge("http-01", "h")]);
    assert!(Authorization::matching("u", data, "dns-01", "xyz").is_none());
    let data = auth_data("pending", "example.com", Vec::new());
    assert!(Authorization::matching("u", data, "dns-01", "xyz").is_none());
}

#[test]
fn authorization_status_is_fail_safe() {
    for (word, status) in [
        ("pending", AuthStatus::Pending),
        ("valid", AuthStatus::Valid),
        ("invalid", AuthStatus::Invalid),
        ("expired", AuthStatus::Invalid),
        ("", AuthStatus::Invalid),
        ("Valid", AuthStatus::Invalid),
    ] {
        let data = auth_data(word, "example.com", vec![challenge("dns-01", "t")]);
        let made = Authorization::matching("u", data, "dns-01", "xyz").unwrap();
        assert_eq!(made.status(), status, "{}", word);
    }
}

#[test]
fn authorize_selects_only_the_requested_type() {
    let order = order("pending", &["a.example", "b.example", "c.example"], None);
    let fetched = vec![
        auth_data("pending", "a.example", vec![challenge("http-01", "a0"), challenge("dns-01", "a1")]),
        auth_data("pending", "b.example", vec![challenge("http-01", "b0")]),
        auth_data("valid", "c.example", vec![challenge("dns-01", "c0"), challenge("dns-01", "c1")]),
    ];
    let made = order.authorize(ChallengeType::DNS, fetched);
    // The identifier without a DNS challenge is left out, without a fault.
    assert_eq!(made.len(), 2);
    assert_eq!(made[0].url, "https://ca.example/authz/0");
    assert_eq!(made[0].challenge.token, "a1");
    assert_eq!(made[0].challenge.domain, "a.example");
    assert_eq!(made[0].challenge.response, proof_of("a1", "thumb"));
    assert_eq!(made[0].status(), AuthStatus::Pending);
    assert_eq!(made[1].url, "https://ca.example/authz/2");
    assert_eq!(made[1].challenge.token, "c0");
    assert_eq!(made[1].challenge.domain, "c.example");
    assert_eq!(made[1].challenge.response, proof_of("c0", "thumb"));
    assert_eq!(made[1].status(), AuthStatus::Valid);
    for authorization in &made {
        assert_eq!(authorization.challenge.kind, "dns-01");
    }
}

#[test]
fn authorize_with_nothing_matching() {
    let order = order("pending", &["a.example", "b.example"], None);
    let fetched = vec![
        auth_data("pending", "a.example", vec![challenge("http-01", "a0")]),
        auth_data("pending", "b.example", Vec::new()),
    ];
    assert!(order.authorize(ChallengeType::DNS, fetched).is_empty());
    assert!(order.authorize(ChallengeType::DNS, Vec::new()).is_empty());
}

#[test]
fn authorize_ignores_resources_without_address() {
    let order = order("pending", &["a.example"], None);
    let fetched = vec![
        auth_data("pending", "a.example", vec![challenge("dns-01", "a")]),
        auth_data("pending", "b.example", vec![challenge("dns-01", "b")]),
    ];
    let made = order.authorize(ChallengeType::DNS, fetched);
    assert_eq!(made.len(), 1);
    assert_eq!(made[0].challenge.token, "a");
}

#[test]
fn ready_carries_the_domain_over() {
    let order = order("pending", &["a.example", "b.example"], None);
    let fetched = vec![
        auth_data("pending", "a.example", vec![challenge("dns-01", "a")]),
        auth_data("pending", "b.example", vec![challenge("dns-01", "b")]),
    ];
    let made = order.authorize(ChallengeType::DNS, fetched);
    let mut reply_a = challenge("dns-01", "a");
    reply_a.status = Some("processing".to_string());
    let mut reply_b = challenge("dns-01", "b");
    reply_b.validated = Some("2030-01-01".to_string());
    let challenges = order.ready(made, vec![reply_a, reply_b]);
    assert_eq!(challenges.len(), 2);
    assert_eq!(challenges[0].domain, "a.example");
    assert_eq!(challenges[0].status, Some("processing".to_string()));
    assert_eq!(challenges[0].token, "a");
    // The reply is taken as sent: it holds no proof.
    assert_eq!(challenges[0].response, "");
    assert_eq!(challenges[1].domain, "b.example");
    assert_eq!(challenges[1].validated, Some("2030-01-01".to_string()));
    assert!(order.ready(Vec::new(), vec![challenge("dns-01", "x")]).is_empty());
}

#[test]
fn status_refreshes_the_order() {
    let mut order = order("pending", &["a.example"], None);
    assert_eq!(order.last_status(), OrderStatus::Pending);
    let status = order.status(order_data("valid", &["a.example"], Some("https://ca.example/cert/1")));
    assert_eq!(status, OrderStatus::Valid);
    assert_eq!(order.last_status(), OrderStatus::Valid);
    assert_eq!(order.data().certificate, Some("https://ca.example/cert/1".to_string()));
    assert_eq!(order.url(), "https://ca.example/order/1");
    assert_eq!(order.status(order_data("bogus", &[], None)), OrderStatus::Invalid);
    assert_eq!(order.status(order_data("processing", &[], None)), OrderStatus::Processing);
    assert_eq!(order.status(order_data("ready", &[], None)), OrderStatus::Ready);
}

#[test]
fn finalize_with_each_outcome() {
    let mut order = order("ready", &["a.example"], None);
    match order.finalize_with(Generation::NoKeyPair("no entropy".to_string())) {
        Err(Error::CertificateSerialize(text)) => assert_eq!(text, "no entropy"),
        other => panic!("unexpected: {:?}", other),
    }
    match order.finalize_with(Generation::Unserializable("why".to_string())) {
        Err(Error::CertificateSerialize(text)) => assert_eq!(text, "why"),
        other => panic!("unexpected: {:?}", other),
    }
    // Neither failure gave the order a key.
    order.status(order_data("valid", &["a.example"], Some("https://ca.example/cert/1")));
    assert!(matches!(order.download(body("PEM")), Err(Error::CertificateUnavailable)));
    match order.finalize_with(generated()).unwrap() {
        Payload::Finalize { csr } => assert_eq!(csr, "AQID"),
        other => panic!("unexpected: {:?}", other),
    }
    // The private key of the request is kept for the download.
    let (pem, key) = order.download(body("PEM")).unwrap();
    assert_eq!(pem, "PEM");
    assert_eq!(key, vec![9, 8, 7]);
    // A failed attempt keeps the key of the request that was last made.
    assert!(order.finalize_with(Generation::NoKeyPair("again".to_string())).is_err());
    assert_eq!(order.download(body("PEM")).unwrap().1, vec![9, 8, 7]);
    // A new request replaces it.
    let again = Generation::Done(Generated {
        names: vec!["a.example".to_string()],
        request: vec![4],
        private_key: vec![5],
    });
    order.finalize_with(again).unwrap();
    assert_eq!(order.download(body("PEM")).unwrap().1, vec![5]);
}

#[test]
fn finalize_generates_a_request_for_the_names() {
    let mut order = order("ready", &["example.com", "www.example.com"], None);
    assert_eq!(order.names(), vec!["example.com".to_string(), "www.example.com".to_string()]);
    assert_eq!(order.finalize_url(), "https://ca.example/finalize/1");
    let csr = match order.finalize().unwrap() {
        Payload::Finalize { csr } => csr,
        other => panic!("unexpected: {:?}", other),
    };
    let der = base64ct::Base64UrlUnpadded::decode_vec(&csr).unwrap();
    // A DER sequence that names both domains.
    assert_eq!(der[0], 0x30);
    let holds = |needle: &[u8]| der.windows(needle.len()).any(|w| w == needle);
    assert!(holds(b"example.com"));
    assert!(holds(b"www.example.com"));
    order.status(order_data("valid", &["example.com"], Some("https://ca.example/cert/1")));
    let (_, key) = order.download(body("PEM")).unwrap();
    assert_eq!(key[0], 0x30);
    // Each call makes a new key pair.
    let mut other = order_with_same_names();
    let other_csr = match other.finalize().unwrap() {
        Payload::Finalize { csr } => csr,
        other => panic!("unexpected: {:?}", other),
    };
    assert_ne!(csr, other_csr);
}

#[test]
fn finalize_rejects_a_name_that_is_not_ascii() {
    for names in [
        vec!["b\u{fc}cher.example"],
        vec!["example.com", "caf\u{e9}.example.com"],
        vec!["\u{1F600}"],
        vec!["example.com", "www.example.com", "\u{80}"],
    ] {
        let mut order = order("ready", &names, Some("https://ca.example/cert/1"));
        assert!(
            matches!(order.finalize(), Err(Error::CertificateSerialize(_))),
            "{:?}",
            names
        );
        // The order got no key.
        order.status(order_data("valid", &names, Some("https://ca.example/cert/1")));
        assert!(matches!(order.download(body("PEM")), Err(Error::CertificateUnavailable)));
    }
    // A failed call keeps the key of the request that was last made.
    let mut order = order("ready", &["example.com"], None);
    order.finalize_with(generated()).unwrap();
    order.status(order_data("valid", &["b\u{fc}cher.example"], Some("https://ca.example/cert/1")));
    assert!(matches!(order.finalize(), Err(Error::CertificateSerialize(_))));
    assert_eq!(order.download(body("PEM")).unwrap().1, vec![9, 8, 7]);
}

#[test]
fn finalize_takes_any_names_in_ascii() {
    for names in [
        vec![],
        vec![""],
        vec!["*.example.com"],
        vec!["127.0.0.1", "::1"],
        vec!["xn--bcher-kva.example"],
        vec!["a b", "\u{7f}", "\t", "UPPER.example"],
    ] {
        let mut order = order("ready", &names, None);
        assert!(matches!(order.finalize(), Ok(Payload::Finalize { .. })), "{:?}", names);
    }
}

fn order_with_same_names() -> Order {
    order("ready", &["example.com", "www.example.com"], None)
}

#[test]
fn download_only_when_valid_and_complete() {
    // Valid, with address and key.
    let mut complete = order("valid", &["a.example"], Some("https://ca.example/cert/1"));
    complete.finalize_with(generated()).unwrap();
    assert_eq!(complete.certificate_url().unwrap(), "https://ca.example/cert/1");
    assert!(complete.download(body("PEM")).is_ok());

    // Every other state, even with address and key.
    for status in ["pending", "ready", "processing", "invalid", "unknown", ""] {
        let mut order = order(status, &["a.example"], Some("https://ca.example/cert/1"));
        order.finalize_with(generated()).unwrap();
        assert!(matches!(order.certificate_url(), Err(Error::CertificateUnavailable)), "{}", status);
        assert!(
            matches!(order.download(body("PEM")), Err(Error::CertificateUnavailable)),
            "{}",
            status
        );
    }

    // Valid without the certificate's address.
    let mut no_url = order("valid", &["a.example"], None);
    no_url.finalize_with(generated()).unwrap();
    assert!(matches!(no_url.certificate_url(), Err(Error::CertificateUnavailable)));
    assert!(matches!(no_url.download(body("PEM")), Err(Error::CertificateUnavailable)));

    // Valid without a key: no request was made for this order.
    let no_key = order("valid", &["a.example"], Some("https://ca.example/cert/1"));
    assert!(matches!(no_key.certificate_url(), Err(Error::CertificateUnavailable)));
    assert!(matches!(no_key.download(body("PEM")), Err(Error::CertificateUnavailable)));
}

fn account_with_nonce(nonce: &str) -> acme_dns01::account::Account {
    let records = acme_dns01::codec::Records {
        key: vec![7u8; 32],
        directory: Vec::new(),
        order_urls: None,
    };
    let directory = acme_dns01::model::Directory {
        new_nonce: "https://ca.example/new-nonce".to_string(),
        new_account: "https://ca.example/new-acct".to_string(),
        new_order: "https://ca.example/new-order".to_string(),
        revoke_cert: "https://ca.example/revoke".to_string(),
        account: Some("https://ca.example/acct/1".to_string()),
    };
    let mut account = acme_dns01::account::Account::from_records(&records, directory).unwrap();
    account.set_nonce(&acme_dns01::model::Response {
        status: 200,
        nonce: Some(nonce.to_string()),
        location: None,
        body: Vec::new(),
    });
    account
}

fn sent(step: Result<acme_dns01::account::Step, Error>) -> (String, String) {
    match step.unwrap() {
        acme_dns01::account::Step::Send { url, request } => (url, request.payload),
        acme_dns01::account::Step::FetchNonce(_) => panic!("a nonce was at hand"),
    }
}

#[test]
fn order_requests_go_to_the_order_addresses() {
    let mut order = order("ready", &["a.example", "b.example"], None);

    let mut account = account_with_nonce("n");
    assert_eq!(
        sent(order.request_status(&mut account)),
        ("https://ca.example/order/1".to_string(), String::new())
    );
    assert_eq!(account.nonce(), &None);

    let mut account = account_with_nonce("n");
    assert_eq!(
        sent(order.request_authorization(&mut account, 1).unwrap()),
        ("https://ca.example/authz/1".to_string(), String::new())
    );
    let mut account = account_with_nonce("n");
    assert!(order.request_authorization(&mut account, 2).is_none());
    assert_eq!(account.nonce(), &Some("n".to_string()));

    let payload = order.finalize_with(generated()).unwrap();
    let mut account = account_with_nonce("n");
    assert_eq!(
        sent(order.request_finalize(&mut account, &payload)),
        ("https://ca.example/finalize/1".to_string(), "eyJjc3IiOiJBUUlEIn0".to_string())
    );

    // The certificate can be asked for only once the order is valid.
    let mut account = account_with_nonce("n");
    assert!(matches!(
        order.request_certificate(&mut account),
        Err(Error::CertificateUnavailable)
    ));
    assert_eq!(account.nonce(), &Some("n".to_string()));
    order.status(order_data("valid", &["a.example"], Some("https://ca.example/cert/1")));
    assert_eq!(
        sent(order.request_certificate(&mut account)),
        ("https://ca.example/cert/1".to_string(), String::new())
    );
}

#[test]
fn readiness_is_an_empty_object_to_the_challenge() {
    let data = auth_data("pending", "a.example", vec![challenge("dns-01", "tok")]);
    let made = Authorization::matching("https://ca.example/authz/0", data, "dns-01", "t").unwrap();
    let mut account = account_with_nonce("n");
    assert_eq!(
        sent(made.request_ready(&mut account)),
        ("https://ca.example/chall/dns-01/tok".to_string(), "e30".to_string())
    );
}

#[test]
fn download_needs_a_body_in_utf8() {
    let mut order = order("valid", &["a.example"], Some("https://ca.example/cert/1"));
    order.finalize_with(generated()).unwrap();
    let bad = Response { status: 200, nonce: None, location: None, body: vec![b'P', 0xff, b'M'] };
    assert!(matches!(order.download(bad), Err(Error::ResponseIntoString(_))));
    let (pem, key) = order.download(body("-----BEGIN CERTIFICATE-----\n\u{e9}\n")).unwrap();
    assert_eq!(pem, "-----BEGIN CERTIFICATE-----\n\u{e9}\n");
    assert_eq!(key, vec![9, 8, 7]);
    // An order that is not valid fails as unavailable, whatever the body.
    let mut pending = order_with_same_names();
    pending.finalize_with(generated()).unwrap();
    let bad = Response { status: 200, nonce: None, location: None, body: vec![0xff] };
    assert!(matches!(pending.download(bad), Err(Error::CertificateUnavailable)));
}

use acme_dns01::authorization::{AuthData, Authorization};
use acme_dns01::config::{CertificateRequest, Config, DNSRecordsAPI, DomainRequest, PorkbunKeys};
use acme_dns01::issuance::{
    conclude, convert_requests, plan_domains, plan_host, provision, Poll, PollAction, Progress,
    Provision, POLL_BUDGET_SECS, POLL_CAP_SECS, POLL_START_SECS, POLL_STEP_SECS,
    PROPAGATION_DELAY_SECS,
};
use acme_dns01::model::{CertificateAuthority, Challenge, Identifier};
use acme_dns01::porkbun::{Endpoint, PorkbunAPI};
use acme_dns01::status::OrderStatus;

fn domain(root: &str, hosts: Option<&[&str]>) -> DomainRequest {
    DomainRequest {
        root: root.to_string(),
        hosts: hosts.map(|list| list.iter().map(|h| h.to_string()).collect()),
    }
}

fn request(name: &str, domains: Vec<DomainRequest>) -> CertificateRequest {
    CertificateRequest { name: name.to_string(), domains }
}

fn authorization(status: &str, domain: &str, response: &str) -> Authorization {
    Authorization {
        url: "https://ca.example/authz/0".to_string(),
        data: AuthData {
            status: status.to_string(),
            expires: None,
            identifier: Identifier { kind: "dns".to_string(), value: domain.to_string() },
            challenges: Vec::new(),
            wildcard: None,
        },
        challenge: Challenge {
            kind: "dns-01".to_string(),
            url: "https://ca.example/chall/0".to_string(),
            token: "t".to_string(),
            status: None,
            validated: None,
            domain: domain.to_string(),
            response: response.to_string(),
        },
    }
}

#[test]
fn timing_constants() {
    assert_eq!(PROPAGATION_DELAY_SECS, 20);
    assert_eq!(POLL_START_SECS, 5);
    assert_eq!(POLL_STEP_SECS, 5);
    assert_eq!(POLL_CAP_SECS, 60);
    assert_eq!(POLL_BUDGET_SECS, 300);
}

#[test]
fn convert_requests_lists_domains() {
    let requests = vec![
        request(
            "site",
            vec![
                domain("example.com", Some(&[".", "www", "mail.eu"])),
                domain("example.org", None),
            ],
        ),
        request("empty", Vec::new()),
        request("none", vec![domain("example.net", Some(&[]))]),
    ];
    let converted = convert_requests(&requests);
    assert_eq!(converted.len(), 3);
    assert_eq!(converted[0].0, "site");
    assert_eq!(
        converted[0].1,
        vec![
            ("example.com".to_string(), 0),
            ("www.example.com".to_string(), 3),
            ("mail.eu.example.com".to_string(), 7),
            ("example.org".to_string(), 0),
        ]
    );
    assert_eq!(converted[1].0, "empty");
    assert!(converted[1].1.is_empty());
    assert_eq!(converted[2].0, "none");
    assert!(converted[2].1.is_empty());
    assert!(convert_requests(&Vec::new()).is_empty());
}

#[test]
fn convert_requests_counts_bytes_of_the_host() {
    let requests = vec![request("idn", vec![domain("example.com", Some(&["caf\u{e9}", ""]))])];
    let converted = convert_requests(&requests);
    assert_eq!(
        converted[0].1,
        vec![("caf\u{e9}.example.com".to_string(), 5), (".example.com".to_string(), 0)]
    );
}

#[test]
fn dns_naming_end_to_end() {
    // No list of hosts: the record is _acme-challenge.<root>.
    let plan = plan_host("example.com", None);
    assert_eq!(plan.domain, "example.com");
    assert_eq!(plan.root, "example.com");
    assert_eq!(plan.record, "_acme-challenge");
    assert_eq!(format!("{}.{}", plan.record, plan.root), "_acme-challenge.example.com");

    // The host www: _acme-challenge.www.<root>.
    let plan = plan_host("example.com", Some("www"));
    assert_eq!(plan.domain, "www.example.com");
    assert_eq!(plan.root, "example.com");
    assert_eq!(plan.record, "_acme-challenge.www");
    assert_eq!(format!("{}.{}", plan.record, plan.root), "_acme-challenge.www.example.com");

    // The host "." is the apex: the same as no list of hosts.
    let plan = plan_host("example.com", Some("."));
    assert_eq!(plan.domain, "example.com");
    assert_eq!(plan.root, "example.com");
    assert_eq!(plan.record, "_acme-challenge");

    let plan = plan_host("example.com", Some("a.b"));
    assert_eq!(plan.domain, "a.b.example.com");
    assert_eq!(plan.record, "_acme-challenge.a.b");

    let plan = plan_host("example.com", Some(""));
    assert_eq!(plan.domain, ".example.com");
    assert_eq!(plan.root, ".example.com");
    assert_eq!(plan.record, "_acme-challenge");
}

#[test]
fn plans_follow_the_converted_requests() {
    let requests = vec![request(
        "site",
        vec![domain("example.com", Some(&[".", "www"])), domain("example.org", None)],
    )];
    let converted = convert_requests(&requests);
    let planned = plan_domains(&requests[0]);
    assert_eq!(planned.len(), converted[0].1.len());
    for (plan, (name, _)) in planned.iter().zip(converted[0].1.iter()) {
        assert_eq!(&plan.domain, name);
    }
    let places: Vec<(String, String)> =
        planned.iter().map(|p| (p.root.clone(), p.record.clone())).collect();
    assert_eq!(
        places,
        vec![
            ("example.com".to_string(), "_acme-challenge".to_string()),
            ("example.com".to_string(), "_acme-challenge.www".to_string()),
            ("example.org".to_string(), "_acme-challenge".to_string()),
        ]
    );
}

#[test]
fn provision_by_authorization_status() {
    let requests =
        vec![request("site", vec![domain("example.com", Some(&[".", "www"]))])];
    let planned = plan_domains(&requests[0]);
    match provision(&authorization("pending", "www.example.com", "proof-1"), &planned) {
        Provision::Create { root, record, value } => {
            assert_eq!(root, "example.com");
            assert_eq!(record, "_acme-challenge.www");
            assert_eq!(value, "proof-1");
        }
        other => panic!("unexpected: {:?}", other),
    }
    match provision(&authorization("pending", "example.com", "proof-2"), &planned) {
        Provision::Create { root, record, value } => {
            assert_eq!(root, "example.com");
            assert_eq!(record, "_acme-challenge");
            assert_eq!(value, "proof-2");
        }
        other => panic!("unexpected: {:?}", other),
    }
    // A domain that was not asked for gets no record.
    assert!(matches!(
        provision(&authorization("pending", "other.example.com", "p"), &planned),
        Provision::Nothing
    ));
    assert!(matches!(
        provision(&authorization("valid", "www.example.com", "p"), &planned),
        Provision::Nothing
    ));
    assert!(matches!(
        provision(&authorization("invalid", "www.example.com", "p"), &planned),
        Provision::Abort
    ));
    assert!(matches!(
        provision(&authorization("deactivated", "www.example.com", "p"), &planned),
        Provision::Abort
    ));
    assert!(matches!(
        provision(&authorization("pending", "www.example.com", "p"), &Vec::new()),
        Provision::Nothing
    ));
}

#[test]
fn backoff_grows_by_five_up_to_sixty() {
    let mut poll = Poll::start();
    assert_eq!(poll.wait_secs(), 5);
    let mut expected = 5;
    for i in 0..20 {
        let status = if i % 2 == 0 { OrderStatus::Pending } else { OrderStatus::Processing };
        if expected < 60 {
            expected += 5;
        }
        assert_eq!(poll.observe(status), PollAction::Wait(expected));
        assert_eq!(poll.wait_secs(), expected);
    }
    assert_eq!(poll.wait_secs(), 60);
}

#[test]
fn backoff_after_eleven_observations_is_sixty() {
    let mut poll = Poll::start();
    for _ in 0..10 {
        poll.observe(OrderStatus::Pending);
    }
    assert_eq!(poll.wait_secs(), 55);
    assert_eq!(poll.observe(OrderStatus::Processing), PollAction::Wait(60));
    assert_eq!(poll.observe(OrderStatus::Processing), PollAction::Wait(60));
}

#[test]
fn other_states_leave_the_interval() {
    let mut poll = Poll::start();
    assert_eq!(poll.observe(OrderStatus::Pending), PollAction::Wait(10));
    assert_eq!(poll.observe(OrderStatus::Ready), PollAction::Finalize);
    assert_eq!(poll.wait_secs(), 10);
    assert_eq!(poll.observe(OrderStatus::Valid), PollAction::Download);
    assert_eq!(poll.wait_secs(), 10);
    assert_eq!(poll.observe(OrderStatus::Invalid), PollAction::Abort);
    assert_eq!(poll.wait_secs(), 10);
}

#[test]
fn timeout_after_three_hundred_seconds() {
    for action in [PollAction::Wait(5), PollAction::Wait(60), PollAction::Finalize] {
        assert_eq!(conclude(action, 0), Progress::Again);
        assert_eq!(conclude(action, 299), Progress::Again);
        assert_eq!(conclude(action, 300), Progress::Again);
        assert_eq!(conclude(action, 301), Progress::TimedOut);
        assert_eq!(conclude(action, u64::MAX), Progress::TimedOut);
    }
    for elapsed in [0, 300, 301, 100_000] {
        assert_eq!(conclude(PollAction::Download, elapsed), Progress::Issued);
        assert_eq!(conclude(PollAction::Abort, elapsed), Progress::Rejected);
    }
}

#[test]
fn polling_a_whole_order() {
    let seen = [
        (OrderStatus::Pending, 1),
        (OrderStatus::Pending, 12),
        (OrderStatus::Ready, 28),
        (OrderStatus::Processing, 29),
        (OrderStatus::Valid, 50),
    ];
    let mut poll = Poll::start();
    let mut trace = Vec::new();
    for (status, elapsed) in seen {
        let action = poll.observe(status);
        let progress = conclude(action, elapsed);
        trace.push((action, progress));
        if progress != Progress::Again {
            break;
        }
    }
    assert_eq!(
        trace,
        vec![
            (PollAction::Wait(10), Progress::Again),
            (PollAction::Wait(15), Progress::Again),
            (PollAction::Finalize, Progress::Again),
            (PollAction::Wait(20), Progress::Again),
            (PollAction::Download, Progress::Issued),
        ]
    );
}

#[test]
fn config_picks_the_authority() {
    let config = |staging: Option<bool>| Config {
        output_directory: "out".to_string(),
        staging,
        dns_api: DNSRecordsAPI::Porkbun {
            keys: PorkbunKeys { public: "pk".to_string(), secret: "sk".to_string() },
        },
        certs: Vec::new(),
    };
    assert_eq!(config(Some(true)).authority(), CertificateAuthority::LetsEncryptStaging);
    assert_eq!(config(Some(false)).authority(), CertificateAuthority::LetsEncryptProduction);
    assert_eq!(config(None).authority(), CertificateAuthority::LetsEncryptProduction);
}

#[test]
fn porkbun_endpoints() {
    let s = |t: &str| t.to_string();
    assert_eq!(Endpoint::Ping.url(), "https://porkbun.com/api/json/v3/ping");
    assert_eq!(
        Endpoint::RecordCreate(s("example.com")).url(),
        "https://porkbun.com/api/json/v3/dns/create/example.com"
    );
    assert_eq!(
        Endpoint::RecordEditId(s("example.com"), s("17")).url(),
        "https://porkbun.com/api/json/v3/dns/edit/example.com/17"
    );
    assert_eq!(
        Endpoint::RecordDeleteId(s("example.com"), s("17")).url(),
        "https://porkbun.com/api/json/v3/dns/delete/example.com/17"
    );
    assert_eq!(
        Endpoint::RecordRetrieveId(s("example.com"), Some(s("17"))).url(),
        "https://porkbun.com/api/json/v3/dns/retrieve/example.com/17"
    );
    assert_eq!(
        Endpoint::RecordRetrieveId(s("example.com"), None).url(),
        "https://porkbun.com/api/json/v3/dns/retrieve/example.com/"
    );
    assert_eq!(
        Endpoint::RecordEditType(s("example.com"), Some(s("www")), s("A")).url(),
        "https://porkbun.com/api/json/v3/dns/editByNameType/example.com/A/www"
    );
    assert_eq!(
        Endpoint::RecordDeleteType(s("example.com"), Some(s("_acme-challenge")), s("TXT")).url(),
        "https://porkbun.com/api/json/v3/dns/deleteByNameType/example.com/TXT/_acme-challenge"
    );
    assert_eq!(
        Endpoint::RecordDeleteType(s("example.com"), None, s("TXT")).url(),
        "https://porkbun.com/api/json/v3/dns/deleteByNameType/example.com/TXT/"
    );
    assert_eq!(
        Endpoint::RecordRetrieveType(s("example.com"), None, s("TXT")).url(),
        "https://porkbun.com/api/json/v3/dns/retrieveByNameType/example.com/TXT/"
    );
}

#[test]
fn porkbun_requests() {
    let api = PorkbunAPI::new("sk\"1".to_string(), "pk1".to_string());
    let ping = api.ping();
    assert_eq!(ping.url, "https://porkbun.com/api/json/v3/ping");
    assert_eq!(ping.body, "{\"secretapikey\":\"sk\\\"1\",\"apikey\":\"pk1\"}");

    let create = api.create(Some("_acme-challenge.www"), "example.com", "proof");
    assert_eq!(create.url, "https://porkbun.com/api/json/v3/dns/create/example.com");
    assert_eq!(
        create.body,
        "{\"secretapikey\":\"sk\\\"1\",\"apikey\":\"pk1\",\"name\":\"_acme-challenge.www\",\"type\":\"TXT\",\"content\":\"proof\",\"ttl\":null,\"prio\":null}"
    );
    let apex = api.create(None, "example.com", "proof");
    let value: serde_json::Value = serde_json::from_str(&apex.body).unwrap();
    assert!(value.get("name").unwrap().is_null());
    assert_eq!(value.get("content").unwrap().as_str().unwrap(), "proof");
    assert_eq!(value.get("secretapikey").unwrap().as_str().unwrap(), "sk\"1");

    let delete = api.delete(Some("_acme-challenge"), "example.com");
    assert_eq!(
        delete.url,
        "https://porkbun.com/api/json/v3/dns/deleteByNameType/example.com/TXT/_acme-challenge"
    );
    assert_eq!(delete.body, ping.body);
    assert_eq!(
        api.delete(None, "example.com").url,
        "https://porkbun.com/api/json/v3/dns/deleteByNameType/example.com/TXT/"
    );
}

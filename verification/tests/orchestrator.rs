use acme_dns01::authorization::{AuthData, Authorization};
use acme_dns01::issuance::{DomainPlan, PollAction};
use acme_dns01::model::{Challenge, Identifier};
use acme_dns01::orchestrator::{Directive, Ending, Issuance, Stage};
use acme_dns01::status::OrderStatus;

fn plan(domain: &str, root: &str, record: &str) -> DomainPlan {
    DomainPlan { domain: domain.to_string(), root: root.to_string(), record: record.to_string() }
}

fn plans() -> Vec<DomainPlan> {
    vec![
        plan("example.com", "example.com", "_acme-challenge"),
        plan("www.example.com", "example.com", "_acme-challenge.www"),
    ]
}

fn authorization(status: &str, domain: &str, response: &str) -> Authorization {
    Authorization {
        url: "https://ca.example/authz/0".to_string(),
        data: AuthData {
            status: status.to_string(),
            expires: None,
            identifier: Identifier { kind: "dns".to_string(), value: domain.to_string() },
            challenges: Vec::new(),
            wildcard: None,
        },
        challenge: Challenge {
            kind: "dns-01".to_string(),
            url: "https://ca.example/chall/0".to_string(),
            token: "t".to_string(),
            status: None,
            validated: None,
            domain: domain.to_string(),
            response: response.to_string(),
        },
    }
}

/// What a directive says, in short.
fn brief(directive: Directive) -> String {
    match directive {
        Directive::CreateRecord { root, record, value } => {
            format!("create {}.{} = {}", record, root, value)
        }
        Directive::Sleep(secs) => format!("sleep {}", secs),
        Directive::SignalReady => "ready".to_string(),
        Directive::ReadStatus => "read".to_string(),
        Directive::Finalize => "finalize".to_string(),
        Directive::Download => "download".to_string(),
        Directive::DeleteRecord { root, record } => format!("delete {}.{}", record, root),
        Directive::Finish(ending) => format!("finish {:?}", ending),
    }
}

/// Runs an issuance in which the order is read in the given states, each
/// with the seconds that have passed once its action is done.
fn run(authorizations: Vec<Authorization>, seen: &[(OrderStatus, u64)]) -> Vec<String> {
    let planned = plans();
    let mut issuance = Issuance::start();
    let mut trace = Vec::new();
    let mut reads = seen.iter();
    let mut elapsed = 0;
    for _ in 0..100 {
        let directive = issuance.advance(&authorizations, &planned, elapsed);
        let done = matches!(directive, Directive::Finish(_));
        if matches!(directive, Directive::ReadStatus) {
            match reads.next() {
                Some((status, after)) => {
                    issuance.status_read(*status);
                    elapsed = *after;
                }
                None => issuance.status_unreadable(),
            }
        }
        trace.push(brief(directive));
        if done {
            return trace;
        }
    }
    panic!("the issuance did not end: {:?}", trace);
}

#[test]
fn issuance_that_succeeds() {
    let authorizations = vec![
        authorization("pending", "example.com", "p0"),
        authorization("valid", "www.example.com", "p1"),
    ];
    let trace = run(
        authorizations,
        &[
            (OrderStatus::Pending, 10),
            (OrderStatus::Ready, 12),
            (OrderStatus::Processing, 27),
            (OrderStatus::Valid, 28),
        ],
    );
    assert_eq!(
        trace,
        vec![
            "create _acme-challenge.example.com = p0",
            "sleep 20",
            "ready",
            "read",
            "sleep 10",
            "read",
            "finalize",
            "read",
            "sleep 15",
            "read",
            "download",
            "delete _acme-challenge.example.com",
            "delete _acme-challenge.www.example.com",
            "finish Issued",
        ]
    );
}

#[test]
fn issuance_creates_a_record_for_each_pending_authorization() {
    let authorizations = vec![
        authorization("pending", "www.example.com", "p1"),
        authorization("pending", "elsewhere.example", "p2"),
        authorization("pending", "example.com", "p0"),
    ];
    let trace = run(authorizations, &[(OrderStatus::Invalid, 3)]);
    assert_eq!(
        trace,
        vec![
            "create _acme-challenge.www.example.com = p1",
            "create _acme-challenge.example.com = p0",
            "sleep 20",
            "ready",
            "read",
            "delete _acme-challenge.example.com",
            "delete _acme-challenge.www.example.com",
            "finish Rejected",
        ]
    );
}

#[test]
fn invalid_authorization_ends_the_issuance_at_once() {
    let authorizations = vec![
        authorization("pending", "example.com", "p0"),
        authorization("revoked", "www.example.com", "p1"),
        authorization("pending", "www.example.com", "p2"),
    ];
    // The record that was made already is not rolled back.
    assert_eq!(
        run(authorizations, &[]),
        vec!["create _acme-challenge.example.com = p0", "finish Abandoned"]
    );
}

#[test]
fn issuance_times_out_with_cleanup() {
    let trace = run(
        Vec::new(),
        &[(OrderStatus::Pending, 200), (OrderStatus::Processing, 301), (OrderStatus::Valid, 302)],
    );
    assert_eq!(
        trace,
        vec![
            "sleep 20",
            "ready",
            "read",
            "sleep 10",
            "read",
            "sleep 15",
            "delete _acme-challenge.example.com",
            "delete _acme-challenge.www.example.com",
            "finish TimedOut",
        ]
    );
}

#[test]
fn timeout_after_finalize() {
    let trace = run(Vec::new(), &[(OrderStatus::Ready, 1000)]);
    assert_eq!(
        trace,
        vec![
            "sleep 20",
            "ready",
            "read",
            "finalize",
            "delete _acme-challenge.example.com",
            "delete _acme-challenge.www.example.com",
            "finish TimedOut",
        ]
    );
}

#[test]
fn valid_order_is_downloaded_whatever_the_time() {
    let trace = run(Vec::new(), &[(OrderStatus::Valid, 100_000)]);
    assert_eq!(
        trace,
        vec![
            "sleep 20",
            "ready",
            "read",
            "download",
            "delete _acme-challenge.example.com",
            "delete _acme-challenge.www.example.com",
            "finish Issued",
        ]
    );
}

#[test]
fn unreadable_order_ends_the_issuance() {
    assert_eq!(
        run(Vec::new(), &[(OrderStatus::Pending, 1)]),
        vec!["sleep 20", "ready", "read", "sleep 10", "read", "finish Unread"]
    );
}

#[test]
fn reports_outside_reading_change_nothing() {
    let planned = plans();
    let none: Vec<Authorization> = Vec::new();
    let mut issuance = Issuance::start();
    assert_eq!(issuance.stage(), Stage::Provisioning(0));
    issuance.status_read(OrderStatus::Valid);
    issuance.status_unreadable();
    assert_eq!(issuance.stage(), Stage::Provisioning(0));
    assert_eq!(issuance.wait_secs(), 5);
    assert_eq!(brief(issuance.advance(&none, &planned, 0)), "sleep 20");
    assert_eq!(issuance.stage(), Stage::Signalling);
    assert_eq!(brief(issuance.advance(&none, &planned, 0)), "ready");
    assert_eq!(issuance.stage(), Stage::Reading);
    // Asking again while the state is awaited asks for the state again.
    assert_eq!(brief(issuance.advance(&none, &planned, 0)), "read");
    assert_eq!(brief(issuance.advance(&none, &planned, 500)), "read");
    issuance.status_read(OrderStatus::Pending);
    assert_eq!(issuance.stage(), Stage::Acting(PollAction::Wait(10)));
    assert_eq!(issuance.wait_secs(), 10);
    issuance.status_read(OrderStatus::Pending);
    assert_eq!(issuance.wait_secs(), 10);
    assert_eq!(brief(issuance.advance(&none, &planned, 0)), "sleep 10");
    assert_eq!(issuance.stage(), Stage::Concluding(PollAction::Wait(10)));
    assert_eq!(brief(issuance.advance(&none, &planned, 300)), "read");
    issuance.status_read(OrderStatus::Invalid);
    assert_eq!(brief(issuance.advance(&none, &planned, 300)), "delete _acme-challenge.example.com");
    assert_eq!(issuance.stage(), Stage::Cleaning(1, Ending::Rejected));
    assert_eq!(
        brief(issuance.advance(&none, &planned, 300)),
        "delete _acme-challenge.www.example.com"
    );
    assert_eq!(brief(issuance.advance(&none, &planned, 300)), "finish Rejected");
    assert_eq!(brief(issuance.advance(&none, &planned, 300)), "finish Rejected");
    assert_eq!(issuance.stage(), Stage::Finished(Ending::Rejected));
}

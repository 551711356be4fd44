//! The decisions of one issuance: which names to order, where the DNS
//! challenge records go, what to do about an authorization, and how to poll
//! the order until it ends.

use crate::authorization::{Authorization, AuthorizationView};
use crate::config::{CertificateRequest, CertificateRequestView, DomainRequest, DomainRequestView};
use crate::encoding::text_eq;
use crate::status::{auth_status_of, AuthStatus, OrderStatus};
use vstd::prelude::*;
use vstd::utf8::encode_utf8;

verus! {

/// The seconds to wait for DNS records to propagate before the authority is
/// told that the challenges are ready.
pub const PROPAGATION_DELAY_SECS: u64 = 20;

/// The poll interval at the start, in seconds.
pub const POLL_START_SECS: u64 = 5;

/// The seconds by which the poll interval grows.
pub const POLL_STEP_SECS: u64 = 5;

/// The poll interval at which growth stops, in seconds.
pub const POLL_CAP_SECS: u64 = 60;

/// The seconds that polling one order may take in all.
pub const POLL_BUDGET_SECS: u64 = 300;

/// The domain name for a host below a root, and the length in bytes of the
/// host part: the root itself with length 0 for the host `.`, else the host,
/// a dot and the root.
pub open spec fn host_entry(root: Seq<char>, host: Seq<char>) -> (Seq<char>, nat) {
    if host == "."@ {
        (root, 0)
    } else {
        (host + "."@ + root, encode_utf8(host).len())
    }
}

/// The domain names that one domain request stands for: one for each host,
/// in their order, or the root itself where it lists no hosts.
pub open spec fn request_entries(request: DomainRequestView) -> Seq<(Seq<char>, nat)> {
    match request.hosts {
        Some(hosts) => Seq::new(hosts.len(), |i: int| host_entry(request.root, hosts[i])),
        None => seq![(request.root, 0)],
    }
}

/// The domain names that a list of domain requests stands for, in their
/// order.
pub open spec fn entries(requests: Seq<DomainRequestView>) -> Seq<(Seq<char>, nat)>
    decreases requests.len(),
{
    if requests.len() == 0 {
        Seq::empty()
    } else {
        entries(requests.drop_last()) + request_entries(requests.last())
    }
}

/// A list of domain names with the lengths of their host parts, as texts
/// and numbers.
pub open spec fn entries_view(list: Seq<(String, usize)>) -> Seq<(Seq<char>, nat)> {
    Seq::new(list.len(), |i: int| (list[i].0@, list[i].1 as nat))
}

/// Appends to `domains` the domain names that `request` stands for.
fn push_entries(domains: &mut Vec<(String, usize)>, request: &DomainRequest)
    ensures
        entries_view(final(domains)@) == entries_view(old(domains)@) + request_entries(request@),
{
    let ghost before = entries_view(domains@);
    match &request.hosts {
        Some(hosts) => {
            let ghost wanted = request_entries(request@);
            let mut i: usize = 0;
            while i < hosts.len()
                invariant
                    i <= hosts.len(),
                    request@.hosts == Some(hosts.deep_view()),
                    wanted == request_entries(request@),
                    wanted.len() == hosts.len(),
                    entries_view(domains@) == before + wanted.take(i as int),
                decreases hosts.len() - i,
            {
                let sub = hosts[i].as_str();
                let entry = if text_eq(sub, ".") {
                    (request.root.clone(), 0usize)
                } else {
                    let mut name = sub.to_string();
                    name.append(".");
                    name.append(request.root.as_str());
                    (name, sub.as_bytes().len())
                };
                let ghost listed = entries_view(domains@);
                domains.push(entry);
                i += 1;
                proof {
                    let now = entries_view(domains@);
                    let want = before + wanted.take(i as int);
                    assert(now.len() == listed.len() + 1);
                    assert forall|k: int| 0 <= k < now.len() implies now[k] == want[k] by {
                        if k < now.len() - 1 {
                            assert(now[k] == listed[k]);
                        }
                    }
                }
            }
        },
        None => {
            domains.push((request.root.clone(), 0usize));
        },
    }
}

/// Convert a vector of certificate requests to a simpler form: for each, its
/// name and the domain names to order, each with the length in bytes of its
/// host part (0 where the name is a root domain).
pub fn convert_requests(requests: &Vec<CertificateRequest>) -> (converted: Vec<
    (&str, Vec<(String, usize)>),
>)
    ensures
        converted.len() == requests.len(),
        forall|i: int|
            0 <= i < requests.len() ==> (#[trigger] converted[i]).0@ == requests[i].name@
                && entries_view(converted[i].1@) == entries(requests[i]@.domains),
{
    let mut converted: Vec<(&str, Vec<(String, usize)>)> = Vec::new();
    let mut c: usize = 0;
    while c < requests.len()
        invariant
            c <= requests.len(),
            converted.len() == c,
            forall|i: int|
                0 <= i < c ==> (#[trigger] converted[i]).0@ == requests[i].name@ && entries_view(
                    converted[i].1@,
                ) == entries(requests[i]@.domains),
        decreases requests.len() - c,
    {
        let request = &requests[c];
        let mut domains: Vec<(String, usize)> = Vec::new();
        let mut d: usize = 0;
        while d < request.domains.len()
            invariant
                d <= request.domains.len(),
                request@.domains.len() == request.domains.len(),
                entries_view(domains@) == entries(request@.domains.take(d as int)),
            decreases request.domains.len() - d,
        {
            push_entries(&mut domains, &request.domains[d]);
            d += 1;
            proof {
                let longer = request@.domains.take(d as int);
                assert(longer.drop_last() =~= request@.domains.take(d - 1));
            }
        }
        proof {
            assert(request@.domains.take(d as int) =~= request@.domains);
        }
        converted.push((request.name.as_str(), domains));
        c += 1;
    }
    converted
}

/// Where the challenge record for a host below a root goes: the domain that
/// the record is made under, and the record's name below it.
///
/// For the root itself, which no host or the host `.` stands for, the record
/// `_acme-challenge` is made under the root. For a host it is the record
/// `_acme-challenge`, a dot and the host, under the root. For the empty
/// host, whose domain name is a dot and the root, the record
/// `_acme-challenge` is made under that name.
pub open spec fn host_record(root: Seq<char>, host: Option<Seq<char>>) -> (Seq<char>, Seq<char>) {
    match host {
        None => (root, "_acme-challenge"@),
        Some(h) => if h == "."@ {
            (root, "_acme-challenge"@)
        } else if h.len() == 0 {
            (h + "."@ + root, "_acme-challenge"@)
        } else {
            (root, "_acme-challenge."@ + h)
        },
    }
}

/// The full name of a record: its name, a dot, and the domain that it is
/// made under.
pub open spec fn record_name(place: (Seq<char>, Seq<char>)) -> Seq<char> {
    place.1 + "."@ + place.0
}

/// The domain name that is ordered for a host below a root.
pub open spec fn host_domain(root: Seq<char>, host: Option<Seq<char>>) -> Seq<char> {
    match host {
        None => root,
        Some(h) => host_entry(root, h).0,
    }
}

/// The challenge record of the root domain is `_acme-challenge.` and the
/// root; that of a host, which is neither empty nor `.`, is
/// `_acme-challenge.`, the host, a dot and the root; and the host `.` is
/// another way to say the root domain.
pub proof fn challenge_record_names(root: Seq<char>, host: Seq<char>)
    ensures
        record_name(host_record(root, None)) == "_acme-challenge."@ + root,
        host_record(root, Some("."@)) == host_record(root, None),
        host_domain(root, Some("."@)) == host_domain(root, None),
        host != "."@ && host.len() > 0 ==> record_name(host_record(root, Some(host)))
            == "_acme-challenge."@ + host + "."@ + root,
        host != "."@ && host.len() > 0 ==> host_domain(root, Some(host)) == host + "."@ + root,
{
    reveal_strlit("_acme-challenge");
    reveal_strlit("_acme-challenge.");
    reveal_strlit(".");
}

/// One domain name of a certificate request, with the place of its
/// challenge record.
#[derive(Debug)]
pub struct DomainPlan {
    /// The domain name that is ordered.
    pub domain: String,
    /// The domain that the challenge record is made under.
    pub root: String,
    /// The name of the challenge record below `root`.
    pub record: String,
}

/// A `DomainPlan` as texts.
pub struct DomainPlanView {
    pub domain: Seq<char>,
    pub root: Seq<char>,
    pub record: Seq<char>,
}

impl DeepView for DomainPlan {
    type V = DomainPlanView;

    open spec fn deep_view(&self) -> DomainPlanView {
        DomainPlanView { domain: self.domain@, root: self.root@, record: self.record@ }
    }
}

impl View for DomainPlan {
    type V = DomainPlanView;

    open spec fn view(&self) -> DomainPlanView {
        self.deep_view()
    }
}

/// The plan for a host below a root.
pub open spec fn host_plan(root: Seq<char>, host: Option<Seq<char>>) -> DomainPlanView {
    DomainPlanView {
        domain: host_domain(root, host),
        root: host_record(root, host).0,
        record: host_record(root, host).1,
    }
}

/// The plans for one domain request: one for each host, in their order, or
/// one for the root itself where it lists no hosts.
pub open spec fn request_plans(request: DomainRequestView) -> Seq<DomainPlanView> {
    match request.hosts {
        Some(hosts) => Seq::new(hosts.len(), |i: int| host_plan(request.root, Some(hosts[i]))),
        None => seq![host_plan(request.root, None)],
    }
}

/// The plans for a list of domain requests, in their order.
pub open spec fn plans(requests: Seq<DomainRequestView>) -> Seq<DomainPlanView>
    decreases requests.len(),
{
    if requests.len() == 0 {
        Seq::empty()
    } else {
        plans(requests.drop_last()) + request_plans(requests.last())
    }
}

/// The plans go with the converted requests one to one: the `i`-th plan is
/// for the `i`-th domain name.
pub proof fn plans_follow_entries(requests: Seq<DomainRequestView>)
    ensures
        plans(requests).len() == entries(requests).len(),
        forall|i: int|
            0 <= i < plans(requests).len() ==> (#[trigger] plans(requests)[i]).domain == entries(
                requests,
            )[i].0,
    decreases requests.len(),
{
    if requests.len() > 0 {
        plans_follow_entries(requests.drop_last());
        let last = requests.last();
    }
}

/// The plan for a host below a root.
pub fn plan_host(root: &str, host: Option<&str>) -> (plan: DomainPlan)
    ensures
        plan@ == host_plan(root@, host.deep_view()),
{
    match host {
        None => DomainPlan {
            domain: root.to_string(),
            root: root.to_string(),
            record: "_acme-challenge".to_string(),
        },
        Some(h) => {
            if text_eq(h, ".") {
                DomainPlan {
                    domain: root.to_string(),
                    root: root.to_string(),
                    record: "_acme-challenge".to_string(),
                }
            } else {
                let mut domain = h.to_string();
                domain.append(".");
                domain.append(root);
                if h.is_empty() {
                    let under = domain.clone();
                    DomainPlan { domain, root: under, record: "_acme-challenge".to_string() }
                } else {
                    let mut record = "_acme-challenge.".to_string();
                    record.append(h);
                    DomainPlan { domain, root: root.to_string(), record }
                }
            }
        },
    }
}

/// The plans for a certificate request: its domain names to order, in the
/// order of `convert_requests`, each with the place of its challenge
/// record.
pub fn plan_domains(request: &CertificateRequest) -> (planned: Vec<DomainPlan>)
    ensures
        planned.deep_view() == plans(request@.domains),
{
    let mut planned: Vec<DomainPlan> = Vec::new();
    let mut d: usize = 0;
    while d < request.domains.len()
        invariant
            d <= request.domains.len(),
            request@.domains.len() == request.domains.len(),
            planned.deep_view() == plans(request@.domains.take(d as int)),
        decreases request.domains.len() - d,
    {
        let domain = &request.domains[d];
        let ghost before = planned.deep_view();
        let ghost wanted = request_plans(domain@);
        match &domain.hosts {
            Some(hosts) => {
                let mut i: usize = 0;
                while i < hosts.len()
                    invariant
                        i <= hosts.len(),
                        domain@.hosts == Some(hosts.deep_view()),
                        wanted == request_plans(domain@),
                        wanted.len() == hosts.len(),
                        planned.deep_view() == before + wanted.take(i as int),
                    decreases hosts.len() - i,
                {
                    let plan = plan_host(domain.root.as_str(), Some(hosts[i].as_str()));
                    let ghost listed = planned.deep_view();
                    planned.push(plan);
                    i += 1;
                    proof {
                        let now = planned.deep_view();
                        let want = before + wanted.take(i as int);
                        assert(now.len() == listed.len() + 1);
                        assert forall|k: int| 0 <= k < now.len() implies now[k] == want[k] by {
                            if k < now.len() - 1 {
                                assert(now[k] == listed[k]);
                            }
                        }
                    }
                }
            },
            None => {
                let plan = plan_host(domain.root.as_str(), None);
                planned.push(plan);
            },
        }
        d += 1;
        proof {
            let longer = request@.domains.take(d as int);
            assert(longer.drop_last() =~= request@.domains.take(d - 1));
        }
    }
    proof {
        assert(request@.domains.take(d as int) =~= request@.domains);
    }
    planned
}

/// What to do about one authorization before the authority is told that the
/// challenges are ready.
#[derive(Debug)]
pub enum Provision {
    /// Create a TXT record named `record` under `root` that holds `value`.
    Create { root: String, record: String, value: String },
    /// Nothing to do.
    Nothing,
    /// The authorization is invalid: give up this certificate.
    Abort,
}

/// A `Provision` as texts.
pub enum ProvisionView {
    Create { root: Seq<char>, record: Seq<char>, value: Seq<char> },
    Nothing,
    Abort,
}

impl DeepView for Provision {
    type V = ProvisionView;

    open spec fn deep_view(&self) -> ProvisionView {
        match self {
            Provision::Create { root, record, value } => ProvisionView::Create {
                root: root@,
                record: record@,
                value: value@,
            },
            Provision::Nothing => ProvisionView::Nothing,
            Provision::Abort => ProvisionView::Abort,
        }
    }
}

impl View for Provision {
    type V = ProvisionView;

    open spec fn view(&self) -> ProvisionView {
        self.deep_view()
    }
}

/// The place of the first plan for `domain` at or after `from`.
pub open spec fn plan_for(planned: Seq<DomainPlanView>, domain: Seq<char>, from: int) -> Option<
    int,
>
    decreases planned.len() - from,
{
    if from < 0 || from >= planned.len() {
        None
    } else if planned[from].domain == domain {
        Some(from)
    } else {
        plan_for(planned, domain, from + 1)
    }
}

/// What to do about an authorization: a pending one wants the challenge
/// record of its domain created with the proof of control as its value, if
/// the domain is among those planned; a valid one wants nothing; an invalid
/// one ends the issuance.
pub open spec fn provisioned(
    authorization: AuthorizationView,
    planned: Seq<DomainPlanView>,
) -> ProvisionView {
    match auth_status_of(authorization.data.status) {
        AuthStatus::Pending => match plan_for(planned, authorization.challenge.domain, 0) {
            Some(i) => ProvisionView::Create {
                root: planned[i].root,
                record: planned[i].record,
                value: authorization.challenge.response,
            },
            None => ProvisionView::Nothing,
        },
        AuthStatus::Valid => ProvisionView::Nothing,
        AuthStatus::Invalid => ProvisionView::Abort,
    }
}

/// Decides what to do about `authorization`, given the plans of the
/// certificate request that it belongs to.
pub fn provision(authorization: &Authorization, planned: &Vec<DomainPlan>) -> (step: Provision)
    ensures
        step@ == provisioned(authorization@, planned.deep_view()),
{
    match authorization.status() {
        AuthStatus::Pending => {
            let mut i: usize = 0;
            while i < planned.len()
                invariant
                    i <= planned.len(),
                    planned.deep_view().len() == planned.len(),
                    auth_status_of(authorization.data.status@) == AuthStatus::Pending,
                    plan_for(planned.deep_view(), authorization.challenge.domain@, 0) == plan_for(
                        planned.deep_view(),
                        authorization.challenge.domain@,
                        i as int,
                    ),
                decreases planned.len() - i,
            {
                if text_eq(planned[i].domain.as_str(), authorization.challenge.domain.as_str()) {
                    return Provision::Create {
                        root: planned[i].root.clone(),
                        record: planned[i].record.clone(),
                        value: authorization.challenge.response.clone(),
                    };
                }
                i += 1;
            }
            Provision::Nothing
        },
        AuthStatus::Valid => Provision::Nothing,
        AuthStatus::Invalid => Provision::Abort,
    }
}

/// What to do after the order's state was read.
#[derive(Clone, Copy, Debug, PartialEq, Eq, Structural)]
pub enum PollAction {
    /// Sleep for so many seconds.
    Wait(u64),
    /// Submit a signing request.
    Finalize,
    /// Download the certificate and hand it over.
    Download,
    /// The order is invalid.
    Abort,
}

/// How things stand once the action is done.
#[derive(Clone, Copy, Debug, PartialEq, Eq, Structural)]
pub enum Progress {
    /// Read the order's state again.
    Again,
    /// The certificate is issued: delete the challenge records, the
    /// issuance succeeded.
    Issued,
    /// The order is invalid: delete the challenge records, the issuance
    /// failed.
    Rejected,
    /// Time is up: delete the challenge records, the issuance failed.
    TimedOut,
}

/// Whether an order in this state is still on its way.
pub open spec fn in_progress(status: OrderStatus) -> bool {
    status == OrderStatus::Pending || status == OrderStatus::Processing
}

/// The poll interval after the order was seen in a state: five seconds more
/// where the order is still on its way and the interval is below the cap,
/// else as before.
pub open spec fn next_wait(wait: u64, status: OrderStatus) -> u64 {
    if in_progress(status) && wait < POLL_CAP_SECS {
        (wait + POLL_STEP_SECS) as u64
    } else {
        wait
    }
}

/// What to do about an order seen in a state, with the poll interval as it
/// is after that.
pub open spec fn action_on(status: OrderStatus, wait: u64) -> PollAction {
    match status {
        OrderStatus::Pending | OrderStatus::Processing => PollAction::Wait(wait),
        OrderStatus::Ready => PollAction::Finalize,
        OrderStatus::Valid => PollAction::Download,
        OrderStatus::Invalid => PollAction::Abort,
    }
}

/// How things stand once `action` is done and `elapsed` seconds have passed
/// since polling began: a download ends the issuance in success, an abort
/// ends it in failure, and after any other action time is up once more than
/// the budget has passed.
pub open spec fn concluded(action: PollAction, elapsed: u64) -> Progress {
    match action {
        PollAction::Download => Progress::Issued,
        PollAction::Abort => Progress::Rejected,
        PollAction::Wait(_) | PollAction::Finalize => if elapsed > POLL_BUDGET_SECS {
            Progress::TimedOut
        } else {
            Progress::Again
        },
    }
}

/// Whether the challenge records are deleted at this point: whenever the
/// polling ends.
pub open spec fn cleans_up(progress: Progress) -> bool {
    progress != Progress::Again
}

/// The poll interval after a run of states in which the order was seen,
/// from the interval at the start.
pub open spec fn wait_after(seen: Seq<OrderStatus>) -> u64
    decreases seen.len(),
{
    if seen.len() == 0 {
        POLL_START_SECS
    } else {
        next_wait(wait_after(seen.drop_last()), seen.last())
    }
}

/// How often the order was seen still on its way in a run of states.
pub open spec fn times_in_progress(seen: Seq<OrderStatus>) -> nat
    decreases seen.len(),
{
    if seen.len() == 0 {
        0
    } else {
        times_in_progress(seen.drop_last()) + if in_progress(seen.last()) {
            1nat
        } else {
            0nat
        }
    }
}

/// The poll interval starts at 5 seconds, grows by 5 seconds each time the
/// order is seen pending or processing, and stops growing at 60 seconds.
pub proof fn backoff(seen: Seq<OrderStatus>)
    ensures
        wait_after(Seq::empty()) == 5,
        wait_after(seen) == if 5 + 5 * times_in_progress(seen) <= 60 {
            5 + 5 * times_in_progress(seen)
        } else {
            60
        },
        5 <= wait_after(seen) <= 60,
    decreases seen.len(),
{
    if seen.len() > 0 {
        backoff(seen.drop_last());
    }
}

/// Once more than 300 seconds have passed since polling began, the polling
/// ends and the challenge records are deleted, in whatever state the order
/// was last seen; unless the order was seen valid, which ends the polling in
/// success whatever the time, the issuance fails.
pub proof fn timeout(status: OrderStatus, wait: u64, elapsed: u64)
    requires
        elapsed > 300,
    ensures
        concluded(action_on(status, wait), elapsed) != Progress::Again,
        cleans_up(concluded(action_on(status, wait), elapsed)),
        status != OrderStatus::Valid ==> concluded(action_on(status, wait), elapsed)
            != Progress::Issued,
        in_progress(status) || status == OrderStatus::Ready ==> concluded(
            action_on(status, wait),
            elapsed,
        ) == Progress::TimedOut,
{
}

/// The state of polling one order: the poll interval in seconds.
#[derive(Debug)]
pub struct Poll {
    wait_secs: u64,
}

impl View for Poll {
    type V = u64;

    closed spec fn view(&self) -> u64 {
        self.wait_secs
    }
}

impl Poll {
    /// Polling begins with an interval of five seconds.
    pub fn start() -> (poll: Poll)
        ensures
            poll@ == POLL_START_SECS,
    {
        Poll { wait_secs: POLL_START_SECS }
    }

    /// The poll interval in seconds.
    pub fn wait_secs(&self) -> (secs: u64)
        ensures
            secs == self@,
    {
        self.wait_secs
    }

    /// Takes note of the state in which the order was just seen, and says
    /// what to do about it.
    pub fn observe(&mut self, status: OrderStatus) -> (action: PollAction)
        ensures
            final(self)@ == next_wait(old(self)@, status),
            action == action_on(status, final(self)@),
    {
        match status {
            OrderStatus::Pending | OrderStatus::Processing => {
                if self.wait_secs < POLL_CAP_SECS {
                    self.wait_secs = self.wait_secs + POLL_STEP_SECS;
                }
                PollAction::Wait(self.wait_secs)
            },
            OrderStatus::Ready => PollAction::Finalize,
            OrderStatus::Valid => PollAction::Download,
            OrderStatus::Invalid => PollAction::Abort,
        }
    }
}

/// Says how things stand once `action` is done and `elapsed_secs` seconds
/// have passed since polling began.
pub fn conclude(action: PollAction, elapsed_secs: u64) -> (progress: Progress)
    ensures
        progress == concluded(action, elapsed_secs),
{
    match action {
        PollAction::Download => Progress::Issued,
        PollAction::Abort => Progress::Rejected,
        _ => if elapsed_secs > POLL_BUDGET_SECS {
            Progress::TimedOut
        } else {
            Progress::Again
        },
    }
}

} // verus!

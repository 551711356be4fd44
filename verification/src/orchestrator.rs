//! The course of one issuance, from the authorizations of a new order to
//! the deletion of the challenge records: a machine that says what to do
//! next, and is told what came of it.

use crate::authorization::{Authorization, AuthorizationView};
use crate::issuance::{
    action_on, conclude, concluded, next_wait, provision, provisioned, DomainPlan, DomainPlanView,
    Poll, PollAction, Progress, Provision, ProvisionView, PROPAGATION_DELAY_SECS,
};
use crate::status::OrderStatus;
use vstd::prelude::*;

verus! {

/// How an issuance ended.
#[derive(Clone, Copy, Debug, PartialEq, Eq, Structural)]
pub enum Ending {
    /// The certificate was issued and handed over.
    Issued,
    /// The order became invalid.
    Rejected,
    /// Polling took longer than its budget.
    TimedOut,
    /// An authorization was invalid: the issuance was given up before the
    /// authority was told that the challenges are ready. Records made for
    /// other identifiers stay.
    Abandoned,
    /// The order's state could not be read.
    Unread,
}

/// Where an issuance stands.
#[derive(Clone, Copy, Debug, PartialEq, Eq, Structural)]
pub enum Stage {
    /// The authorizations from this place on are still to be looked at.
    Provisioning(usize),
    /// The records are made and had time to propagate: the authority is to
    /// be told next.
    Signalling,
    /// The order's state is to be read next.
    Reading,
    /// The order's state was read: this is to be done about it.
    Acting(PollAction),
    /// This was done: whether to go on is to be decided.
    Concluding(PollAction),
    /// The records of the plans from this place on are still to be deleted,
    /// and then the issuance ends so.
    Cleaning(usize, Ending),
    /// The issuance has ended.
    Finished(Ending),
}

/// What to do next in an issuance.
#[derive(Debug)]
pub enum Directive {
    /// Create a TXT record named `record` under `root` that holds `value`.
    CreateRecord { root: String, record: String, value: String },
    /// Sleep for so many seconds.
    Sleep(u64),
    /// Tell the authority that the challenges are ready; polling begins
    /// when that is done.
    SignalReady,
    /// Read the order's state, and report it.
    ReadStatus,
    /// Submit a signing request.
    Finalize,
    /// Download the certificate and hand it over.
    Download,
    /// Delete the TXT records named `record` under `root`.
    DeleteRecord { root: String, record: String },
    /// Nothing more: the issuance has ended.
    Finish(Ending),
}

/// A `Directive` as texts.
pub enum DirectiveView {
    CreateRecord { root: Seq<char>, record: Seq<char>, value: Seq<char> },
    Sleep(u64),
    SignalReady,
    ReadStatus,
    Finalize,
    Download,
    DeleteRecord { root: Seq<char>, record: Seq<char> },
    Finish(Ending),
}

impl DeepView for Directive {
    type V = DirectiveView;

    open spec fn deep_view(&self) -> DirectiveView {
        match self {
            Directive::CreateRecord { root, record, value } => DirectiveView::CreateRecord {
                root: root@,
                record: record@,
                value: value@,
            },
            Directive::Sleep(secs) => DirectiveView::Sleep(*secs),
            Directive::SignalReady => DirectiveView::SignalReady,
            Directive::ReadStatus => DirectiveView::ReadStatus,
            Directive::Finalize => DirectiveView::Finalize,
            Directive::Download => DirectiveView::Download,
            Directive::DeleteRecord { root, record } => DirectiveView::DeleteRecord {
                root: root@,
                record: record@,
            },
            Directive::Finish(ending) => DirectiveView::Finish(*ending),
        }
    }
}

impl View for Directive {
    type V = DirectiveView;

    open spec fn view(&self) -> DirectiveView {
        self.deep_view()
    }
}

/// What comes of looking at the authorizations from place `i` on: the
/// record to create for the first that wants one, the end of the issuance
/// at the first that is invalid, and once all are looked at, the sleep that
/// lets the records propagate.
pub open spec fn provisioning(
    i: int,
    authorizations: Seq<AuthorizationView>,
    planned: Seq<DomainPlanView>,
) -> (Stage, DirectiveView)
    decreases authorizations.len() - i,
{
    if i < 0 || i >= authorizations.len() {
        (Stage::Signalling, DirectiveView::Sleep(PROPAGATION_DELAY_SECS))
    } else {
        match provisioned(authorizations[i], planned) {
            ProvisionView::Create { root, record, value } => (
                Stage::Provisioning((i + 1) as usize),
                DirectiveView::CreateRecord { root, record, value },
            ),
            ProvisionView::Nothing => provisioning(i + 1, authorizations, planned),
            ProvisionView::Abort => (
                Stage::Finished(Ending::Abandoned),
                DirectiveView::Finish(Ending::Abandoned),
            ),
        }
    }
}

/// What comes of deleting the records from place `i` on: the record of the
/// plan at that place is deleted next, and after the last the issuance
/// ends.
pub open spec fn cleaning(i: usize, ending: Ending, planned: Seq<DomainPlanView>) -> (
    Stage,
    DirectiveView,
) {
    if i < planned.len() {
        (
            Stage::Cleaning((i + 1) as usize, ending),
            DirectiveView::DeleteRecord {
                root: planned[i as int].root,
                record: planned[i as int].record,
            },
        )
    } else {
        (Stage::Finished(ending), DirectiveView::Finish(ending))
    }
}

/// What comes of an action that is done, `elapsed` seconds after polling
/// began: the order's state is read again, or the records are deleted and
/// the issuance ends.
pub open spec fn settled(action: PollAction, planned: Seq<DomainPlanView>, elapsed: u64) -> (
    Stage,
    DirectiveView,
) {
    match concluded(action, elapsed) {
        Progress::Again => (Stage::Reading, DirectiveView::ReadStatus),
        Progress::Issued => cleaning(0, Ending::Issued, planned),
        Progress::Rejected => cleaning(0, Ending::Rejected, planned),
        Progress::TimedOut => cleaning(0, Ending::TimedOut, planned),
    }
}

/// The next stage of an issuance and what to do next, `elapsed` seconds
/// after polling began.
pub open spec fn advanced(
    stage: Stage,
    authorizations: Seq<AuthorizationView>,
    planned: Seq<DomainPlanView>,
    elapsed: u64,
) -> (Stage, DirectiveView) {
    match stage {
        Stage::Provisioning(i) => provisioning(i as int, authorizations, planned),
        Stage::Signalling => (Stage::Reading, DirectiveView::SignalReady),
        Stage::Reading => (Stage::Reading, DirectiveView::ReadStatus),
        Stage::Acting(action) => match action {
            PollAction::Wait(secs) => (Stage::Concluding(action), DirectiveView::Sleep(secs)),
            PollAction::Finalize => (Stage::Concluding(action), DirectiveView::Finalize),
            PollAction::Download => (Stage::Concluding(action), DirectiveView::Download),
            PollAction::Abort => settled(action, planned, elapsed),
        },
        Stage::Concluding(action) => settled(action, planned, elapsed),
        Stage::Cleaning(i, ending) => cleaning(i, ending, planned),
        Stage::Finished(ending) => (stage, DirectiveView::Finish(ending)),
    }
}

/// An issuance as plain values: its stage and its poll interval in seconds.
pub struct IssuanceView {
    pub stage: Stage,
    pub wait: u64,
}

/// An issuance after the order was read in a state: while the state was
/// asked for, the poll interval is adjusted and what to do about the state
/// comes next; at any other stage nothing changes.
pub open spec fn status_taken(issuance: IssuanceView, status: OrderStatus) -> IssuanceView {
    if issuance.stage == Stage::Reading {
        IssuanceView {
            stage: Stage::Acting(action_on(status, next_wait(issuance.wait, status))),
            wait: next_wait(issuance.wait, status),
        }
    } else {
        issuance
    }
}

/// An issuance after the order's state could not be read: while the state
/// was asked for, the issuance ends there, with the records left in place;
/// at any other stage nothing changes.
pub open spec fn status_missed(issuance: IssuanceView) -> IssuanceView {
    if issuance.stage == Stage::Reading {
        IssuanceView { stage: Stage::Finished(Ending::Unread), ..issuance }
    } else {
        issuance
    }
}

/// Once more than 300 seconds have passed since polling began, an action
/// that is done is never followed by another reading of the order: the
/// records are deleted, and the issuance ends timed out, or rejected where
/// the order was invalid, or issued where the certificate was downloaded.
pub proof fn no_reading_after_timeout(action: PollAction, planned: Seq<DomainPlanView>, elapsed: u64)
    requires
        elapsed > 300,
    ensures
        settled(action, planned, elapsed) == cleaning(
            0,
            match action {
                PollAction::Download => Ending::Issued,
                PollAction::Abort => Ending::Rejected,
                _ => Ending::TimedOut,
            },
            planned,
        ),
        settled(action, planned, elapsed).0 != Stage::Reading,
{
}

/// An issuance ends as issued, rejected or timed out only from the deletion
/// of the records, after the record of the last plan: a step from any other
/// stage that ends the issuance gives it up or finds it ended already.
pub proof fn ends_after_cleaning(
    stage: Stage,
    authorizations: Seq<AuthorizationView>,
    planned: Seq<DomainPlanView>,
    elapsed: u64,
    ending: Ending,
)
    requires
        advanced(stage, authorizations, planned, elapsed).0 == Stage::Finished(ending),
        ending == Ending::Issued || ending == Ending::Rejected || ending == Ending::TimedOut,
        stage != Stage::Finished(ending),
    ensures
        planned.len() == 0 || (stage matches Stage::Cleaning(i, e) && e == ending && i
            >= planned.len()),
{
    if let Stage::Provisioning(i) = stage {
        provisioning_never_ends_well(i as int, authorizations, planned);
    }
}

/// Looking at the authorizations never ends an issuance but by giving it
/// up.
proof fn provisioning_never_ends_well(
    i: int,
    authorizations: Seq<AuthorizationView>,
    planned: Seq<DomainPlanView>,
)
    ensures
        provisioning(i, authorizations, planned).0 matches Stage::Finished(e) ==> e
            == Ending::Abandoned,
    decreases authorizations.len() - i,
{
    if 0 <= i < authorizations.len() {
        provisioning_never_ends_well(i + 1, authorizations, planned);
    }
}

/// The course of one issuance.
#[derive(Debug)]
pub struct Issuance {
    stage: Stage,
    poll: Poll,
}

impl View for Issuance {
    type V = IssuanceView;

    closed spec fn view(&self) -> IssuanceView {
        IssuanceView { stage: self.stage, wait: self.poll@ }
    }
}

impl Issuance {
    /// An issuance begins with its first authorization, and with a poll
    /// interval of five seconds.
    pub fn start() -> (issuance: Issuance)
        ensures
            issuance@ == (IssuanceView { stage: Stage::Provisioning(0), wait: 5 }),
    {
        Issuance { stage: Stage::Provisioning(0), poll: Poll::start() }
    }

    /// Where the issuance stands.
    pub fn stage(&self) -> (stage: Stage)
        ensures
            stage == self@.stage,
    {
        self.stage
    }

    /// The poll interval in seconds.
    pub fn wait_secs(&self) -> (secs: u64)
        ensures
            secs == self@.wait,
    {
        self.poll.wait_secs()
    }

    /// Says what to do next, given the order's authorizations, the plans of
    /// its domain names, and the seconds that have passed since polling
    /// began, and moves on to the next stage.
    pub fn advance(
        &mut self,
        authorizations: &Vec<Authorization>,
        planned: &Vec<DomainPlan>,
        elapsed_secs: u64,
    ) -> (directive: Directive)
        ensures
            (final(self)@.stage, directive@) == advanced(
                old(self)@.stage,
                authorizations.deep_view(),
                planned.deep_view(),
                elapsed_secs,
            ),
            final(self)@.wait == old(self)@.wait,
    {
        match self.stage {
            Stage::Provisioning(from) => {
                let mut i: usize = from;
                while i < authorizations.len()
                    invariant
                        *self == *old(self),
                        old(self)@.stage == Stage::Provisioning(from),
                        from <= i,
                        authorizations.deep_view().len() == authorizations.len(),
                        provisioning(from as int, authorizations.deep_view(), planned.deep_view())
                            == provisioning(
                            i as int,
                            authorizations.deep_view(),
                            planned.deep_view(),
                        ),
                    decreases authorizations.len() - i,
                {
                    match provision(&authorizations[i], planned) {
                        Provision::Create { root, record, value } => {
                            self.stage = Stage::Provisioning(i + 1);
                            return Directive::CreateRecord { root, record, value };
                        },
                        Provision::Nothing => {
                            i += 1;
                        },
                        Provision::Abort => {
                            self.stage = Stage::Finished(Ending::Abandoned);
                            return Directive::Finish(Ending::Abandoned);
                        },
                    }
                }
                self.stage = Stage::Signalling;
                Directive::Sleep(PROPAGATION_DELAY_SECS)
            },
            Stage::Signalling => {
                self.stage = Stage::Reading;
                Directive::SignalReady
            },
            Stage::Reading => Directive::ReadStatus,
            Stage::Acting(action) => match action {
                PollAction::Wait(secs) => {
                    self.stage = Stage::Concluding(action);
                    Directive::Sleep(secs)
                },
                PollAction::Finalize => {
                    self.stage = Stage::Concluding(action);
                    Directive::Finalize
                },
                PollAction::Download => {
                    self.stage = Stage::Concluding(action);
                    Directive::Download
                },
                PollAction::Abort => self.settle(action, planned, elapsed_secs),
            },
            Stage::Concluding(action) => self.settle(action, planned, elapsed_secs),
            Stage::Cleaning(i, ending) => self.clean(i, ending, planned),
            Stage::Finished(ending) => Directive::Finish(ending),
        }
    }

    /// Decides whether to go on after an action that is done.
    fn settle(&mut self, action: PollAction, planned: &Vec<DomainPlan>, elapsed_secs: u64) -> (directive:
        Directive)
        ensures
            (final(self)@.stage, directive@) == settled(action, planned.deep_view(), elapsed_secs),
            final(self)@.wait == old(self)@.wait,
    {
        match conclude(action, elapsed_secs) {
            Progress::Again => {
                self.stage = Stage::Reading;
                Directive::ReadStatus
            },
            Progress::Issued => self.clean(0, Ending::Issued, planned),
            Progress::Rejected => self.clean(0, Ending::Rejected, planned),
            Progress::TimedOut => self.clean(0, Ending::TimedOut, planned),
        }
    }

    /// Deletes the record of the plan at place `i`, or ends the issuance
    /// after the last.
    fn clean(&mut self, i: usize, ending: Ending, planned: &Vec<DomainPlan>) -> (directive:
        Directive)
        ensures
            (final(self)@.stage, directive@) == cleaning(i, ending, planned.deep_view()),
            final(self)@.wait == old(self)@.wait,
    {
        if i < planned.len() {
            self.stage = Stage::Cleaning(i + 1, ending);
            Directive::DeleteRecord {
                root: planned[i].root.clone(),
                record: planned[i].record.clone(),
            }
        } else {
            self.stage = Stage::Finished(ending);
            Directive::Finish(ending)
        }
    }

    /// Takes note of the state in which the order was just read.
    pub fn status_read(&mut self, status: OrderStatus)
        ensures
            final(self)@ == status_taken(old(self)@, status),
    {
        match self.stage {
            Stage::Reading => {
                let action = self.poll.observe(status);
                self.stage = Stage::Acting(action);
            },
            _ => {},
        }
    }

    /// Takes note that the order's state could not be read.
    pub fn status_unreadable(&mut self)
        ensures
            final(self)@ == status_missed(old(self)@),
    {
        match self.stage {
            Stage::Reading => {
                self.stage = Stage::Finished(Ending::Unread);
            },
            _ => {},
        }
    }
}

} // verus!

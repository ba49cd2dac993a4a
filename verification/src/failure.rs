//! Failures of the collaborators that a workflow depends on, and where in a
//! workflow they struck.

use vstd::prelude::*;
use vstd::string::*;

verus! {

/// What kind of fault the subscriber store reported.
#[derive(Debug, Clone, Copy, PartialEq, Eq, Structural)]
pub enum StoreErrorKind {
    /// The store could not be reached, or no connection came free in time.
    Unavailable,
    /// A constraint of the schema refused the statement.
    ConstraintViolation,
    /// Any other fault of the driver.
    Driver,
}

/// A fault of the subscriber store.
#[derive(Debug, PartialEq, Eq)]
pub struct StoreError {
    pub kind: StoreErrorKind,
    /// The driver's own words, for the log.
    pub detail: String,
}

/// What a [`StoreError`] stands for.
pub struct StoreErrorView {
    pub kind: StoreErrorKind,
    pub detail: Seq<char>,
}

impl View for StoreError {
    type V = StoreErrorView;

    open spec fn view(&self) -> StoreErrorView {
        StoreErrorView { kind: self.kind, detail: self.detail@ }
    }
}

/// A failure to deliver an email.
#[derive(Debug, PartialEq, Eq)]
pub enum EmailError {
    /// The provider could not be reached.
    Unreachable { detail: String },
    /// The provider did not answer in time.
    Timeout,
    /// The provider answered with a status that is no success.
    Status { code: u16 },
}

/// What an [`EmailError`] stands for.
pub enum EmailErrorView {
    Unreachable { detail: Seq<char> },
    Timeout,
    Status { code: u16 },
}

impl View for EmailError {
    type V = EmailErrorView;

    open spec fn view(&self) -> EmailErrorView {
        match self {
            EmailError::Unreachable { detail } => EmailErrorView::Unreachable { detail: detail@ },
            EmailError::Timeout => EmailErrorView::Timeout,
            EmailError::Status { code } => EmailErrorView::Status { code: *code },
        }
    }
}

/// The step of a workflow at which a failure struck.
#[derive(Debug, Clone, Copy, PartialEq, Eq, Structural)]
pub enum Stage {
    AcquireConnection,
    InsertSubscriber,
    StoreToken,
    CommitTransaction,
    SendConfirmationEmail,
    GetSubscriberId,
    ConfirmSubscriber,
}

impl Stage {
    /// The sentence that says, for the log, what failed at this stage.
    pub open spec fn context(self) -> Seq<char> {
        match self {
            Stage::AcquireConnection => "Failed to acquire a Postgres connection from the pool"@,
            Stage::InsertSubscriber => "Failed to insert new subscriber in the database"@,
            Stage::StoreToken => "Failed to store the confirmation token for a new subscriber"@,
            Stage::CommitTransaction =>
                "Failed to commit SQL transaction to store a new subscriber"@,
            Stage::SendConfirmationEmail => "Failed to send a confirmation email"@,
            Stage::GetSubscriberId => "Failed to get an optional subscriber id from token"@,
            Stage::ConfirmSubscriber => "Failed to confirm subscriber"@,
        }
    }

    /// The sentence of [`Stage::context`], as text.
    pub fn describe(&self) -> (r: &'static str)
        ensures
            r@ == self.context(),
    {
        match self {
            Stage::AcquireConnection => "Failed to acquire a Postgres connection from the pool",
            Stage::InsertSubscriber => "Failed to insert new subscriber in the database",
            Stage::StoreToken => "Failed to store the confirmation token for a new subscriber",
            Stage::CommitTransaction =>
                "Failed to commit SQL transaction to store a new subscriber",
            Stage::SendConfirmationEmail => "Failed to send a confirmation email",
            Stage::GetSubscriberId => "Failed to get an optional subscriber id from token",
            Stage::ConfirmSubscriber => "Failed to confirm subscriber",
        }
    }
}

/// Why a stage failed.
#[derive(Debug, PartialEq, Eq)]
pub enum Cause {
    /// The subscriber store reported a fault.
    Store(StoreError),
    /// The email could not be delivered.
    Email(EmailError),
    /// The reply handed to the workflow was not one to the pending action.
    UnexpectedReply,
}

/// What a [`Cause`] stands for.
pub enum CauseView {
    Store(StoreErrorView),
    Email(EmailErrorView),
    UnexpectedReply,
}

impl View for Cause {
    type V = CauseView;

    open spec fn view(&self) -> CauseView {
        match self {
            Cause::Store(e) => CauseView::Store(e@),
            Cause::Email(e) => CauseView::Email(e@),
            Cause::UnexpectedReply => CauseView::UnexpectedReply,
        }
    }
}

/// An unexpected failure: the stage at which it struck, and its cause.
#[derive(Debug, PartialEq, Eq)]
pub struct Failure {
    pub stage: Stage,
    pub cause: Cause,
}

/// What a [`Failure`] stands for.
pub struct FailureView {
    pub stage: Stage,
    pub cause: CauseView,
}

impl View for Failure {
    type V = FailureView;

    open spec fn view(&self) -> FailureView {
        FailureView { stage: self.stage, cause: self.cause@ }
    }
}

impl Clone for StoreError {
    fn clone(&self) -> (r: Self)
        ensures
            r@ == self@,
    {
        StoreError { kind: self.kind, detail: self.detail.clone() }
    }
}

impl Clone for EmailError {
    fn clone(&self) -> (r: Self)
        ensures
            r@ == self@,
    {
        match self {
            EmailError::Unreachable { detail } => EmailError::Unreachable {
                detail: detail.clone(),
            },
            EmailError::Timeout => EmailError::Timeout,
            EmailError::Status { code } => EmailError::Status { code: *code },
        }
    }
}

impl Clone for Cause {
    fn clone(&self) -> (r: Self)
        ensures
            r@ == self@,
    {
        match self {
            Cause::Store(error) => Cause::Store(error.clone()),
            Cause::Email(error) => Cause::Email(error.clone()),
            Cause::UnexpectedReply => Cause::UnexpectedReply,
        }
    }
}

impl Clone for Failure {
    fn clone(&self) -> (r: Self)
        ensures
            r@ == self@,
    {
        Failure { stage: self.stage, cause: self.cause.clone() }
    }
}

} // verus!

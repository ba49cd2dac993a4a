//! Confirming a subscription: from the token of a confirmation link to a
//! confirmed subscriber.

use crate::failure::{Cause, CauseView, Failure, FailureView, Stage, StoreError, StoreErrorView};
use crate::form::{field, fields_view, find_field, urlencoded_fields};
use crate::http::{
    Response, ResponseView, BAD_REQUEST, INTERNAL_SERVER_ERROR, OK, UNAUTHORIZED,
};
use crate::store::{Statement, StatementView, SubscriberId};
use vstd::prelude::*;
use vstd::string::*;

verus! {

/// The path under which subscriptions are confirmed.
pub const CONFIRM_PATH: &'static str = "/subscriptions/confirm";

/// The name of the parameter that carries the confirmation token.
pub const TOKEN_PARAMETER: &'static str = "subscription_token";

/// The parameters of a confirmation link.
#[derive(Debug, PartialEq, Eq)]
pub struct Parameters {
    subscription_token: String,
}

/// What a [`Parameters`] stands for.
pub struct ParametersView {
    pub subscription_token: Seq<char>,
}

impl View for Parameters {
    type V = ParametersView;

    closed spec fn view(&self) -> ParametersView {
        ParametersView { subscription_token: self.subscription_token@ }
    }
}

/// The parameters that `fields` give: [`TOKEN_PARAMETER`] is there exactly
/// once, whatever else is.
pub open spec fn given(fields: Seq<(Seq<char>, Seq<char>)>) -> Option<ParametersView> {
    match field(fields, TOKEN_PARAMETER@) {
        Some(subscription_token) => Some(ParametersView { subscription_token }),
        None => None,
    }
}

/// The answer to a request whose query gives no parameters.
pub open spec fn bad_request() -> ResponseView {
    ResponseView {
        status: BAD_REQUEST,
        body: "the query must hold the parameter `subscription_token` exactly once"@,
    }
}

impl Parameters {
    /// The parameters of a link that carries `subscription_token`.
    pub fn new(subscription_token: String) -> (parameters: Parameters)
        ensures
            parameters@ == (ParametersView { subscription_token: subscription_token@ }),
    {
        Parameters { subscription_token }
    }

    /// The parameters that `fields` give, or the answer to a request that
    /// gives none.
    pub fn from_fields(fields: &Vec<(String, String)>) -> (r: Result<Parameters, Response>)
        ensures
            match r {
                Ok(parameters) => given(fields_view(fields@)) == Some(parameters@),
                Err(response) => given(fields_view(fields@)) is None && response@ == bad_request(),
            },
    {
        match find_field(fields, TOKEN_PARAMETER) {
            Some(subscription_token) => Ok(Parameters { subscription_token }),
            None => Err(
                Response {
                    status: BAD_REQUEST,
                    body: String::from_str(
                        "the query must hold the parameter `subscription_token` exactly once",
                    ),
                },
            ),
        }
    }

    /// Reads the parameters from the query of a request's URL, or gives the
    /// answer to a request whose query holds none.
    pub fn parse(query: &[u8]) -> (r: Result<Parameters, Response>)
        ensures
            match r {
                Ok(parameters) => given(urlencoded_fields(query@)) == Some(parameters@),
                Err(response) => given(urlencoded_fields(query@)) is None && response@
                    == bad_request(),
            },
    {
        let fields = crate::form::parse(query);
        Parameters::from_fields(&fields)
    }
}

/// A failed confirmation.
#[derive(Debug, PartialEq, Eq)]
pub enum ConfirmError {
    /// No subscriber is bound to the token.
    NonExistingToken,
    /// The store failed.
    UnexpectedError(Failure),
}

/// What a [`ConfirmError`] stands for.
pub enum ConfirmErrorView {
    NonExistingToken,
    UnexpectedError(FailureView),
}

impl View for ConfirmError {
    type V = ConfirmErrorView;

    open spec fn view(&self) -> ConfirmErrorView {
        match self {
            ConfirmError::NonExistingToken => ConfirmErrorView::NonExistingToken,
            ConfirmError::UnexpectedError(failure) => ConfirmErrorView::UnexpectedError(failure@),
        }
    }
}

impl ConfirmErrorView {
    /// The status that the error is answered with: an unknown token is not
    /// authorized to confirm anything.
    pub open spec fn status_code(self) -> u16 {
        match self {
            ConfirmErrorView::NonExistingToken => UNAUTHORIZED,
            ConfirmErrorView::UnexpectedError(_) => INTERNAL_SERVER_ERROR,
        }
    }

    /// The error in words.
    pub open spec fn message(self) -> Seq<char> {
        match self {
            ConfirmErrorView::NonExistingToken => "Non-existing token"@,
            ConfirmErrorView::UnexpectedError(failure) => failure.stage.context(),
        }
    }
}

impl ConfirmError {
    /// The status that the error is answered with.
    pub fn status_code(&self) -> (status: u16)
        ensures
            status == self@.status_code(),
    {
        match self {
            ConfirmError::NonExistingToken => UNAUTHORIZED,
            ConfirmError::UnexpectedError(_) => INTERNAL_SERVER_ERROR,
        }
    }

    /// The answer to the request: the status, and no body.
    pub fn into_response(self) -> (response: Response)
        ensures
            response@ == (ResponseView {
                status: self@.status_code(),
                body: Seq::<char>::empty(),
            }),
    {
        Response::empty(self.status_code())
    }

    /// The error in words.
    pub fn to_string(&self) -> (message: String)
        ensures
            message@ == self@.message(),
    {
        match self {
            ConfirmError::NonExistingToken => String::from_str("Non-existing token"),
            ConfirmError::UnexpectedError(failure) => String::from_str(failure.stage.describe()),
        }
    }
}

/// The statement that asks for the subscriber bound to `subscription_token`.
pub fn get_subscriber_id_from_token(subscription_token: &str) -> (statement: Statement)
    ensures
        statement@ == (StatementView::GetSubscriberIdFromToken {
            subscription_token: subscription_token@,
        }),
{
    Statement::GetSubscriberIdFromToken { subscription_token: String::from_str(subscription_token) }
}

/// The statement that marks the subscriber `subscriber_id` as confirmed.
pub fn confirm_subscriber(subscriber_id: SubscriberId) -> (statement: Statement)
    ensures
        statement@ == (StatementView::ConfirmSubscriber { subscriber_id }),
{
    Statement::ConfirmSubscriber { subscriber_id }
}

/// What the subscriber store answers to the statement that a confirmation is
/// waiting for.
#[derive(Debug, PartialEq, Eq)]
pub enum ConfirmEvent {
    /// The answer to the question for a token's subscriber.
    Lookup(Result<Option<SubscriberId>, StoreError>),
    /// The answer to the update of a subscriber's status.
    Update(Result<(), StoreError>),
}

/// What a [`ConfirmEvent`] stands for.
pub enum ConfirmEventView {
    Lookup(Result<Option<SubscriberId>, StoreErrorView>),
    Update(Result<(), StoreErrorView>),
}

impl View for ConfirmEvent {
    type V = ConfirmEventView;

    open spec fn view(&self) -> ConfirmEventView {
        match self {
            ConfirmEvent::Lookup(Ok(found)) => ConfirmEventView::Lookup(Ok(*found)),
            ConfirmEvent::Lookup(Err(error)) => ConfirmEventView::Lookup(Err(error@)),
            ConfirmEvent::Update(Ok(())) => ConfirmEventView::Update(Ok(())),
            ConfirmEvent::Update(Err(error)) => ConfirmEventView::Update(Err(error@)),
        }
    }
}

/// What a confirmation asks to be done next.
#[derive(Debug, PartialEq, Eq)]
pub enum ConfirmAction {
    /// Ask the store the question, for at most one row.
    Fetch(Statement),
    /// Execute the statement on the store.
    Execute(Statement),
    /// Answer the request: with a status, or with an error.
    Complete(Result<u16, ConfirmError>),
    /// Nothing: the confirmation has been answered before.
    Nothing,
}

/// What a [`ConfirmAction`] stands for.
pub enum ConfirmActionView {
    Fetch(StatementView),
    Execute(StatementView),
    Complete(Result<u16, ConfirmErrorView>),
    Nothing,
}

impl View for ConfirmAction {
    type V = ConfirmActionView;

    open spec fn view(&self) -> ConfirmActionView {
        match self {
            ConfirmAction::Fetch(statement) => ConfirmActionView::Fetch(statement@),
            ConfirmAction::Execute(statement) => ConfirmActionView::Execute(statement@),
            ConfirmAction::Complete(Ok(status)) => ConfirmActionView::Complete(Ok(*status)),
            ConfirmAction::Complete(Err(error)) => ConfirmActionView::Complete(Err(error@)),
            ConfirmAction::Nothing => ConfirmActionView::Nothing,
        }
    }
}

/// How far a confirmation has come. The first two states wait for the answer
/// to one statement each.
#[derive(Debug, Clone, Copy, PartialEq, Eq, Structural)]
pub enum ConfirmWorkflow {
    /// The token is being looked up.
    Requested,
    /// The token is bound to a subscriber, who is being marked as confirmed.
    Found { subscriber_id: SubscriberId },
    /// The subscriber is confirmed, and the request answered with `200 OK`.
    Confirmed,
    /// No subscriber is bound to the token, and the request was answered
    /// with `401 Unauthorized`.
    Unauthorized,
    /// The store failed, and the request was answered with
    /// `500 Internal Server Error`.
    Failed,
}

impl ConfirmWorkflow {
    /// The stage whose answer the confirmation waits for; none once the
    /// request has been answered.
    pub open spec fn pending(self) -> Option<Stage> {
        match self {
            ConfirmWorkflow::Requested => Some(Stage::GetSubscriberId),
            ConfirmWorkflow::Found { .. } => Some(Stage::ConfirmSubscriber),
            ConfirmWorkflow::Confirmed => None,
            ConfirmWorkflow::Unauthorized => None,
            ConfirmWorkflow::Failed => None,
        }
    }

    /// Where a confirmation starts: the token is looked up.
    pub open spec fn start(parameters: ParametersView) -> (ConfirmWorkflow, ConfirmActionView) {
        (
            ConfirmWorkflow::Requested,
            ConfirmActionView::Fetch(
                StatementView::GetSubscriberIdFromToken {
                    subscription_token: parameters.subscription_token,
                },
            ),
        )
    }

    /// Where a confirmation ends when the store fails at `stage`, or answers
    /// what was not asked.
    pub open spec fn failed(stage: Stage, cause: CauseView) -> (
        ConfirmWorkflow,
        ConfirmActionView,
    ) {
        (
            ConfirmWorkflow::Failed,
            ConfirmActionView::Complete(
                Err(ConfirmErrorView::UnexpectedError(FailureView { stage, cause })),
            ),
        )
    }

    /// The state and the action that follow `event`. An unknown token is
    /// refused without a word to the store; a known one has its subscriber
    /// marked as confirmed, whatever the subscriber's status was.
    pub open spec fn next(self, event: ConfirmEventView) -> (ConfirmWorkflow, ConfirmActionView) {
        match self {
            ConfirmWorkflow::Requested => match event {
                ConfirmEventView::Lookup(Ok(Some(subscriber_id))) => (
                    ConfirmWorkflow::Found { subscriber_id },
                    ConfirmActionView::Execute(StatementView::ConfirmSubscriber { subscriber_id }),
                ),
                ConfirmEventView::Lookup(Ok(None)) => (
                    ConfirmWorkflow::Unauthorized,
                    ConfirmActionView::Complete(Err(ConfirmErrorView::NonExistingToken)),
                ),
                ConfirmEventView::Lookup(Err(error)) => Self::failed(
                    Stage::GetSubscriberId,
                    CauseView::Store(error),
                ),
                ConfirmEventView::Update(_) => Self::failed(
                    Stage::GetSubscriberId,
                    CauseView::UnexpectedReply,
                ),
            },
            ConfirmWorkflow::Found { .. } => match event {
                ConfirmEventView::Update(Ok(())) => (
                    ConfirmWorkflow::Confirmed,
                    ConfirmActionView::Complete(Ok(OK)),
                ),
                ConfirmEventView::Update(Err(error)) => Self::failed(
                    Stage::ConfirmSubscriber,
                    CauseView::Store(error),
                ),
                ConfirmEventView::Lookup(_) => Self::failed(
                    Stage::ConfirmSubscriber,
                    CauseView::UnexpectedReply,
                ),
            },
            _ => (self, ConfirmActionView::Nothing),
        }
    }

    /// Ends the confirmation at `stage`, for the given cause.
    fn fail(stage: Stage, cause: Cause) -> (r: (ConfirmWorkflow, ConfirmAction))
        ensures
            (r.0, r.1@) == Self::failed(stage, cause@),
    {
        (
            ConfirmWorkflow::Failed,
            ConfirmAction::Complete(Err(ConfirmError::UnexpectedError(Failure { stage, cause }))),
        )
    }

    /// Takes the answer to the pending statement, and says what to do next.
    pub fn step(self, event: ConfirmEvent) -> (r: (ConfirmWorkflow, ConfirmAction))
        ensures
            (r.0, r.1@) == self.next(event@),
    {
        match self {
            ConfirmWorkflow::Requested => match event {
                ConfirmEvent::Lookup(Ok(Some(subscriber_id))) => (
                    ConfirmWorkflow::Found { subscriber_id },
                    ConfirmAction::Execute(confirm_subscriber(subscriber_id)),
                ),
                ConfirmEvent::Lookup(Ok(None)) => (
                    ConfirmWorkflow::Unauthorized,
                    ConfirmAction::Complete(Err(ConfirmError::NonExistingToken)),
                ),
                ConfirmEvent::Lookup(Err(error)) => Self::fail(
                    Stage::GetSubscriberId,
                    Cause::Store(error),
                ),
                ConfirmEvent::Update(_) => Self::fail(
                    Stage::GetSubscriberId,
                    Cause::UnexpectedReply,
                ),
            },
            ConfirmWorkflow::Found { .. } => match event {
                ConfirmEvent::Update(Ok(())) => (
                    ConfirmWorkflow::Confirmed,
                    ConfirmAction::Complete(Ok(OK)),
                ),
                ConfirmEvent::Update(Err(error)) => Self::fail(
                    Stage::ConfirmSubscriber,
                    Cause::Store(error),
                ),
                ConfirmEvent::Lookup(_) => Self::fail(
                    Stage::ConfirmSubscriber,
                    Cause::UnexpectedReply,
                ),
            },
            other => (other, ConfirmAction::Nothing),
        }
    }
}

/// Starts the confirmation that a link asks for: the link's token is looked
/// up.
pub fn confirm(parameters: Parameters) -> (r: (ConfirmWorkflow, ConfirmAction))
    ensures
        (r.0, r.1@) == ConfirmWorkflow::start(parameters@),
{
    (
        ConfirmWorkflow::Requested,
        ConfirmAction::Fetch(get_subscriber_id_from_token(parameters.subscription_token.as_str())),
    )
}

impl Clone for ConfirmError {
    fn clone(&self) -> (r: Self)
        ensures
            r@ == self@,
    {
        match self {
            ConfirmError::NonExistingToken => ConfirmError::NonExistingToken,
            ConfirmError::UnexpectedError(failure) => ConfirmError::UnexpectedError(
                failure.clone(),
            ),
        }
    }
}

} // verus!

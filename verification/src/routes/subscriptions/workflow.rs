//! The sign-up as a state machine: what it waits for, and what it asks for
//! next.

use crate::domain::new_subscriber::{NewSubscriber, NewSubscriberView};
use crate::email_client::{EmailRequest, EmailRequestView};
use crate::failure::{
    Cause, CauseView, EmailError, EmailErrorView, Failure, FailureView, Stage, StoreError,
    StoreErrorView,
};
use crate::http::CREATED;
use crate::routes::subscriptions::{
    binding, confirmation_email, generate_subscription_token, insert_subscriber, insertion,
    is_subscription_token, send_confirmation_email, store_token, validated, FormDataView,
    SubscribeError, SubscribeErrorView,
};
use crate::state::{State, StateView};
use crate::store::{is_random_uuid, now_utc, Statement, StatementView, SubscriberId};
use vstd::prelude::*;

verus! {

/// What the collaborators answer to the action that a sign-up is waiting
/// for.
#[derive(Debug, PartialEq, Eq)]
pub enum SubscribeEvent {
    /// The answer of the subscriber store.
    Store(Result<(), StoreError>),
    /// The answer of the email client.
    Email(Result<(), EmailError>),
}

/// What a [`SubscribeEvent`] stands for.
pub enum SubscribeEventView {
    Store(Result<(), StoreErrorView>),
    Email(Result<(), EmailErrorView>),
}

impl View for SubscribeEvent {
    type V = SubscribeEventView;

    open spec fn view(&self) -> SubscribeEventView {
        match self {
            SubscribeEvent::Store(Ok(())) => SubscribeEventView::Store(Ok(())),
            SubscribeEvent::Store(Err(error)) => SubscribeEventView::Store(Err(error@)),
            SubscribeEvent::Email(Ok(())) => SubscribeEventView::Email(Ok(())),
            SubscribeEvent::Email(Err(error)) => SubscribeEventView::Email(Err(error@)),
        }
    }
}

/// What a sign-up asks to be done next.
#[derive(Debug, PartialEq, Eq)]
pub enum SubscribeAction {
    /// Open a transaction on the subscriber store.
    BeginTransaction,
    /// Execute the statement inside the open transaction.
    Execute(Statement),
    /// Commit the open transaction.
    Commit,
    /// Send the request to the email provider.
    SendEmail(EmailRequest),
    /// Answer the request: with a status, or with an error. A transaction
    /// that is open at this point is abandoned, and so rolled back.
    Complete(Result<u16, SubscribeError>),
    /// Nothing: the sign-up has been answered before.
    Nothing,
}

/// What a [`SubscribeAction`] stands for.
pub enum SubscribeActionView {
    BeginTransaction,
    Execute(StatementView),
    Commit,
    SendEmail(EmailRequestView),
    Complete(Result<u16, SubscribeErrorView>),
    Nothing,
}

impl View for SubscribeAction {
    type V = SubscribeActionView;

    open spec fn view(&self) -> SubscribeActionView {
        match self {
            SubscribeAction::BeginTransaction => SubscribeActionView::BeginTransaction,
            SubscribeAction::Execute(statement) => SubscribeActionView::Execute(statement@),
            SubscribeAction::Commit => SubscribeActionView::Commit,
            SubscribeAction::SendEmail(request) => SubscribeActionView::SendEmail(request@),
            SubscribeAction::Complete(Ok(status)) => SubscribeActionView::Complete(Ok(*status)),
            SubscribeAction::Complete(Err(error)) => SubscribeActionView::Complete(Err(error@)),
            SubscribeAction::Nothing => SubscribeActionView::Nothing,
        }
    }
}

/// What a sign-up draws on its way: the identifier and the time under which
/// the subscriber is stored, and the confirmation token.
#[derive(Debug, PartialEq, Eq)]
pub struct Fresh {
    pub subscriber_id: SubscriberId,
    /// In nanoseconds since the Unix epoch.
    pub subscribed_at: i128,
    pub subscription_token: String,
}

/// What a [`Fresh`] stands for.
pub struct FreshView {
    pub subscriber_id: SubscriberId,
    pub subscribed_at: i128,
    pub subscription_token: Seq<char>,
}

impl View for Fresh {
    type V = FreshView;

    open spec fn view(&self) -> FreshView {
        FreshView {
            subscriber_id: self.subscriber_id,
            subscribed_at: self.subscribed_at,
            subscription_token: self.subscription_token@,
        }
    }
}

/// How far a sign-up has come. Each state but the last three waits for the
/// answer to one action.
#[derive(Debug, PartialEq, Eq)]
pub enum SubscribeWorkflow {
    /// The form is valid; a transaction is being opened.
    Validated { subscriber: NewSubscriber },
    /// The transaction is open; the subscriber is being inserted.
    InTransaction { subscriber: NewSubscriber, subscriber_id: SubscriberId },
    /// The subscriber is stored, pending confirmation; the token is being
    /// stored.
    Stored { subscriber: NewSubscriber, subscription_token: String },
    /// The token is stored; the transaction is being committed.
    TokenIssued { subscriber: NewSubscriber, subscription_token: String },
    /// The transaction is committed; the confirmation email is being sent.
    Committed,
    /// The email is sent, and the request answered with `201 Created`.
    Accepted,
    /// The form was refused, and the request answered with
    /// `422 Unprocessable Entity`.
    RejectedInvalid,
    /// The store or the email provider failed, and the request was answered
    /// with `500 Internal Server Error`.
    Failed,
}

/// What a [`SubscribeWorkflow`] stands for.
pub enum SubscribeWorkflowView {
    Validated { subscriber: NewSubscriberView },
    InTransaction { subscriber: NewSubscriberView, subscriber_id: SubscriberId },
    Stored { subscriber: NewSubscriberView, subscription_token: Seq<char> },
    TokenIssued { subscriber: NewSubscriberView, subscription_token: Seq<char> },
    Committed,
    Accepted,
    RejectedInvalid,
    Failed,
}

impl View for SubscribeWorkflow {
    type V = SubscribeWorkflowView;

    open spec fn view(&self) -> SubscribeWorkflowView {
        match self {
            SubscribeWorkflow::Validated { subscriber } => SubscribeWorkflowView::Validated {
                subscriber: subscriber@,
            },
            SubscribeWorkflow::InTransaction { subscriber, subscriber_id } =>
                SubscribeWorkflowView::InTransaction {
                    subscriber: subscriber@,
                    subscriber_id: *subscriber_id,
                },
            SubscribeWorkflow::Stored { subscriber, subscription_token } =>
                SubscribeWorkflowView::Stored {
                    subscriber: subscriber@,
                    subscription_token: subscription_token@,
                },
            SubscribeWorkflow::TokenIssued { subscriber, subscription_token } =>
                SubscribeWorkflowView::TokenIssued {
                    subscriber: subscriber@,
                    subscription_token: subscription_token@,
                },
            SubscribeWorkflow::Committed => SubscribeWorkflowView::Committed,
            SubscribeWorkflow::Accepted => SubscribeWorkflowView::Accepted,
            SubscribeWorkflow::RejectedInvalid => SubscribeWorkflowView::RejectedInvalid,
            SubscribeWorkflow::Failed => SubscribeWorkflowView::Failed,
        }
    }
}

impl SubscribeWorkflowView {
    /// The stage whose answer the sign-up waits for; none once the request
    /// has been answered.
    pub open spec fn pending(self) -> Option<Stage> {
        match self {
            SubscribeWorkflowView::Validated { .. } => Some(Stage::AcquireConnection),
            SubscribeWorkflowView::InTransaction { .. } => Some(Stage::InsertSubscriber),
            SubscribeWorkflowView::Stored { .. } => Some(Stage::StoreToken),
            SubscribeWorkflowView::TokenIssued { .. } => Some(Stage::CommitTransaction),
            SubscribeWorkflowView::Committed => Some(Stage::SendConfirmationEmail),
            SubscribeWorkflowView::Accepted => None,
            SubscribeWorkflowView::RejectedInvalid => None,
            SubscribeWorkflowView::Failed => None,
        }
    }

    /// Where the sign-up with a submitted form starts: a refused form is
    /// answered at once, with the reason, and a valid one opens a
    /// transaction.
    pub open spec fn start(form: FormDataView) -> (SubscribeWorkflowView, SubscribeActionView) {
        match validated(form) {
            Err(reason) => (
                SubscribeWorkflowView::RejectedInvalid,
                SubscribeActionView::Complete(Err(SubscribeErrorView::ValidationError(reason))),
            ),
            Ok(subscriber) => (
                SubscribeWorkflowView::Validated { subscriber },
                SubscribeActionView::BeginTransaction,
            ),
        }
    }

    /// The state and the action that follow when the pending action has
    /// succeeded. The subscriber is inserted under the fresh identifier and
    /// time, and then bound to the fresh token; the email carries that same
    /// token.
    pub open spec fn proceed(self, state: StateView, fresh: FreshView) -> (
        SubscribeWorkflowView,
        SubscribeActionView,
    ) {
        match self {
            SubscribeWorkflowView::Validated { subscriber } => (
                SubscribeWorkflowView::InTransaction {
                    subscriber,
                    subscriber_id: fresh.subscriber_id,
                },
                SubscribeActionView::Execute(
                    insertion(subscriber, fresh.subscriber_id, fresh.subscribed_at),
                ),
            ),
            SubscribeWorkflowView::InTransaction { subscriber, subscriber_id } => (
                SubscribeWorkflowView::Stored {
                    subscriber,
                    subscription_token: fresh.subscription_token,
                },
                SubscribeActionView::Execute(binding(subscriber_id, fresh.subscription_token)),
            ),
            SubscribeWorkflowView::Stored { subscriber, subscription_token } => (
                SubscribeWorkflowView::TokenIssued { subscriber, subscription_token },
                SubscribeActionView::Commit,
            ),
            SubscribeWorkflowView::TokenIssued { subscriber, subscription_token } => (
                SubscribeWorkflowView::Committed,
                SubscribeActionView::SendEmail(
                    confirmation_email(
                        state.email_client,
                        subscriber,
                        state.base_url,
                        subscription_token,
                    ),
                ),
            ),
            SubscribeWorkflowView::Committed => (
                SubscribeWorkflowView::Accepted,
                SubscribeActionView::Complete(Ok(CREATED)),
            ),
            _ => (self, SubscribeActionView::Nothing),
        }
    }

    /// How `event` answers the action pending at `stage`: with success, or
    /// with the cause of a failure. The store's answer fits every stage but
    /// the sending of the email, which only the email client's answer fits;
    /// an answer that does not fit is a failure.
    pub open spec fn answer(stage: Stage, event: SubscribeEventView) -> Result<(), CauseView> {
        match event {
            SubscribeEventView::Store(reply) => if stage == Stage::SendConfirmationEmail {
                Err(CauseView::UnexpectedReply)
            } else {
                match reply {
                    Ok(_) => Ok(()),
                    Err(error) => Err(CauseView::Store(error)),
                }
            },
            SubscribeEventView::Email(reply) => if stage == Stage::SendConfirmationEmail {
                match reply {
                    Ok(_) => Ok(()),
                    Err(error) => Err(CauseView::Email(error)),
                }
            } else {
                Err(CauseView::UnexpectedReply)
            },
        }
    }

    /// The state and the action that follow `event`, where `fresh` is what
    /// the sign-up draws if it goes on. A failure at any stage ends the
    /// sign-up; nothing is tried again.
    pub open spec fn step(self, state: StateView, event: SubscribeEventView, fresh: FreshView) -> (
        SubscribeWorkflowView,
        SubscribeActionView,
    ) {
        match self.pending() {
            None => (self, SubscribeActionView::Nothing),
            Some(stage) => match Self::answer(stage, event) {
                Ok(_) => self.proceed(state, fresh),
                Err(cause) => (
                    SubscribeWorkflowView::Failed,
                    SubscribeActionView::Complete(
                        Err(SubscribeErrorView::UnexpectedError(FailureView { stage, cause })),
                    ),
                ),
            },
        }
    }

    /// Whether the sign-up goes on after `event`: an action is pending, and
    /// `event` tells that it has succeeded.
    pub open spec fn goes_on(self, event: SubscribeEventView) -> bool {
        self.pending() matches Some(stage) && Self::answer(stage, event) is Ok
    }

    /// What is known of the values that a sign-up draws where it goes on
    /// after `event`: the identifier is a random UUID where one is used, the
    /// token has the shape of a confirmation token where one is used.
    pub open spec fn draws(self, event: SubscribeEventView, fresh: FreshView) -> bool {
        self.goes_on(event) ==> {
            &&& self is Validated ==> is_random_uuid(fresh.subscriber_id.value)
            &&& self is InTransaction ==> is_subscription_token(fresh.subscription_token)
        }
    }
}

impl SubscribeWorkflow {
    /// Ends the sign-up at `stage`, for the given cause.
    fn fail(stage: Stage, cause: Cause) -> (r: (SubscribeWorkflow, SubscribeAction))
        ensures
            r.0@ == SubscribeWorkflowView::Failed,
            r.1@ == SubscribeActionView::Complete(
                Err(SubscribeErrorView::UnexpectedError(FailureView { stage, cause: cause@ })),
            ),
    {
        (
            SubscribeWorkflow::Failed,
            SubscribeAction::Complete(
                Err(SubscribeError::UnexpectedError(Failure { stage, cause })),
            ),
        )
    }

    /// The stage whose answer the sign-up waits for.
    pub fn pending(&self) -> (stage: Option<Stage>)
        ensures
            stage == self@.pending(),
    {
        match self {
            SubscribeWorkflow::Validated { .. } => Some(Stage::AcquireConnection),
            SubscribeWorkflow::InTransaction { .. } => Some(Stage::InsertSubscriber),
            SubscribeWorkflow::Stored { .. } => Some(Stage::StoreToken),
            SubscribeWorkflow::TokenIssued { .. } => Some(Stage::CommitTransaction),
            SubscribeWorkflow::Committed => Some(Stage::SendConfirmationEmail),
            SubscribeWorkflow::Accepted => None,
            SubscribeWorkflow::RejectedInvalid => None,
            SubscribeWorkflow::Failed => None,
        }
    }

    /// Reads `event` as the answer to the action pending at `stage`.
    fn answer(stage: Stage, event: SubscribeEvent) -> (r: Result<(), Cause>)
        ensures
            match r {
                Ok(_) => SubscribeWorkflowView::answer(stage, event@) is Ok,
                Err(cause) => SubscribeWorkflowView::answer(stage, event@) == Err::<(), CauseView>(
                    cause@,
                ),
            },
    {
        let sending = match stage {
            Stage::SendConfirmationEmail => true,
            _ => false,
        };
        match event {
            SubscribeEvent::Store(reply) => {
                if sending {
                    Err(Cause::UnexpectedReply)
                } else {
                    match reply {
                        Ok(()) => Ok(()),
                        Err(error) => Err(Cause::Store(error)),
                    }
                }
            },
            SubscribeEvent::Email(reply) => {
                if sending {
                    match reply {
                        Ok(()) => Ok(()),
                        Err(error) => Err(Cause::Email(error)),
                    }
                } else {
                    Err(Cause::UnexpectedReply)
                }
            },
        }
    }

    /// Draws what a sign-up in this state needs to go on: an identifier and
    /// the time before the subscriber is inserted, a token before the token
    /// is stored. What the state does not use is left empty.
    fn draw(&self) -> (fresh: Fresh)
        ensures
            self@ is Validated ==> is_random_uuid(fresh@.subscriber_id.value),
            self@ is InTransaction ==> is_subscription_token(fresh@.subscription_token),
    {
        match self {
            SubscribeWorkflow::Validated { .. } => Fresh {
                subscriber_id: SubscriberId::generate(),
                subscribed_at: now_utc(),
                subscription_token: String::new(),
            },
            SubscribeWorkflow::InTransaction { .. } => Fresh {
                subscriber_id: SubscriberId { value: 0 },
                subscribed_at: 0,
                subscription_token: generate_subscription_token(),
            },
            _ => Fresh {
                subscriber_id: SubscriberId { value: 0 },
                subscribed_at: 0,
                subscription_token: String::new(),
            },
        }
    }

    /// Goes on after the pending action has succeeded.
    fn proceed(self, state: &State, fresh: Fresh) -> (r: (SubscribeWorkflow, SubscribeAction))
        ensures
            (r.0@, r.1@) == self@.proceed(state@, fresh@),
    {
        match self {
            SubscribeWorkflow::Validated { subscriber } => {
                let statement = insert_subscriber(
                    fresh.subscriber_id,
                    fresh.subscribed_at,
                    &subscriber,
                );
                (
                    SubscribeWorkflow::InTransaction {
                        subscriber,
                        subscriber_id: fresh.subscriber_id,
                    },
                    SubscribeAction::Execute(statement),
                )
            },
            SubscribeWorkflow::InTransaction { subscriber, subscriber_id } => {
                let statement = store_token(subscriber_id, fresh.subscription_token.as_str());
                (
                    SubscribeWorkflow::Stored {
                        subscriber,
                        subscription_token: fresh.subscription_token,
                    },
                    SubscribeAction::Execute(statement),
                )
            },
            SubscribeWorkflow::Stored { subscriber, subscription_token } => (
                SubscribeWorkflow::TokenIssued { subscriber, subscription_token },
                SubscribeAction::Commit,
            ),
            SubscribeWorkflow::TokenIssued { subscriber, subscription_token } => {
                let request = send_confirmation_email(
                    &state.email_client,
                    &subscriber,
                    state.base_url.as_str(),
                    subscription_token.as_str(),
                );
                (SubscribeWorkflow::Committed, SubscribeAction::SendEmail(request))
            },
            SubscribeWorkflow::Committed => (
                SubscribeWorkflow::Accepted,
                SubscribeAction::Complete(Ok(CREATED)),
            ),
            other => (other, SubscribeAction::Nothing),
        }
    }

    /// Takes the answer to the pending action, and says what to do next,
    /// given what the sign-up draws if it goes on.
    pub fn advance(self, state: &State, event: SubscribeEvent, fresh: Fresh) -> (r: (
        SubscribeWorkflow,
        SubscribeAction,
    ))
        ensures
            (r.0@, r.1@) == self@.step(state@, event@, fresh@),
    {
        let stage = match self.pending() {
            None => {
                return (self, SubscribeAction::Nothing);
            },
            Some(stage) => stage,
        };
        match Self::answer(stage, event) {
            Ok(_) => self.proceed(state, fresh),
            Err(cause) => Self::fail(stage, cause),
        }
    }

    /// Takes the answer to the pending action, and says what to do next.
    ///
    /// The steps follow one another strictly: the transaction is opened, the
    /// subscriber inserted under a fresh identifier, a fresh token stored,
    /// the transaction committed, and only then the email sent. A failure at
    /// any of them ends the sign-up with an error that names the stage; a
    /// failure to send the email leaves what was committed as it is.
    pub fn step(self, state: &State, event: SubscribeEvent) -> (r: (
        SubscribeWorkflow,
        SubscribeAction,
    ))
        ensures
            exists|fresh: FreshView|
                self@.draws(event@, fresh) && (r.0@, r.1@) == #[trigger] self@.step(
                    state@,
                    event@,
                    fresh,
                ),
    {
        let stage = match self.pending() {
            None => {
                let ghost unused = FreshView {
                    subscriber_id: SubscriberId { value: 0 },
                    subscribed_at: 0,
                    subscription_token: Seq::<char>::empty(),
                };
                assert((self@, SubscribeActionView::Nothing) == self@.step(state@, event@, unused));
                return (self, SubscribeAction::Nothing);
            },
            Some(stage) => stage,
        };
        match Self::answer(stage, event) {
            Ok(_) => {
                let fresh = self.draw();
                let ghost drawn = fresh@;
                let r = self.proceed(state, fresh);
                assert((r.0@, r.1@) == self@.step(state@, event@, drawn));
                r
            },
            Err(cause) => {
                let ghost unused = FreshView {
                    subscriber_id: SubscriberId { value: 0 },
                    subscribed_at: 0,
                    subscription_token: Seq::<char>::empty(),
                };
                let r = Self::fail(stage, cause);
                assert((r.0@, r.1@) == self@.step(state@, event@, unused));
                r
            },
        }
    }
}

} // verus!

//! A sign-up against the subscriber store: whatever the store and the email
//! provider answer, the subscriber and the token are stored together or not
//! at all, and no email is sent for what is not stored.

use crate::domain::new_subscriber::NewSubscriberView;
use crate::failure::{CauseView, EmailErrorView, FailureView, Stage};
use crate::http::{CREATED, INTERNAL_SERVER_ERROR, UNPROCESSABLE_ENTITY};
use crate::routes::subscriptions::{
    binding, confirmation_email, insertion, validated, FormDataView, FreshView,
    SubscribeActionView, SubscribeErrorView, SubscribeEventView, SubscribeWorkflowView,
};
use crate::state::StateView;
use crate::store::{
    lemma_after_keeps_well_formed, Subscription, SubscriptionStatus, Tables,
};
use vstd::prelude::*;

verus! {

/// The store as one sign-up sees it: the tables as they are committed, and
/// the tables as the open transaction sees them, if one is open.
pub struct Database {
    pub tables: Tables,
    pub transaction: Option<Tables>,
}

impl Database {
    /// Whether `event` is an answer that the store or the email provider can
    /// give to `action`. The store executes a statement only inside a
    /// transaction and only if the tables accept it, and commits only a
    /// transaction that is open. It may fail at anything.
    pub open spec fn can_answer(
        self,
        action: SubscribeActionView,
        event: SubscribeEventView,
    ) -> bool {
        match action {
            SubscribeActionView::BeginTransaction => event is Store,
            SubscribeActionView::Execute(statement) => {
                &&& event is Store
                &&& event matches SubscribeEventView::Store(Ok(_)) ==> self.transaction is Some
                    && self.transaction->0.accepts(statement)
            },
            SubscribeActionView::Commit => {
                &&& event is Store
                &&& event matches SubscribeEventView::Store(Ok(_)) ==> self.transaction is Some
            },
            SubscribeActionView::SendEmail(_) => event is Email,
            SubscribeActionView::Complete(_) => true,
            SubscribeActionView::Nothing => true,
        }
    }

    /// The store after `action` has been answered with `event`. What a
    /// transaction did shows in the tables once it is committed; a
    /// transaction that is open when the request is answered is rolled back.
    pub open spec fn after(
        self,
        action: SubscribeActionView,
        event: SubscribeEventView,
    ) -> Database {
        let succeeded = event matches SubscribeEventView::Store(Ok(_));
        match action {
            SubscribeActionView::BeginTransaction => if succeeded {
                Database { transaction: Some(self.tables), ..self }
            } else {
                self
            },
            SubscribeActionView::Execute(statement) => if succeeded && self.transaction is Some {
                Database { transaction: Some(self.transaction->0.after(statement)), ..self }
            } else {
                self
            },
            SubscribeActionView::Commit => if succeeded && self.transaction is Some {
                Database { tables: self.transaction->0, transaction: None }
            } else {
                Database { transaction: None, ..self }
            },
            SubscribeActionView::SendEmail(_) => self,
            SubscribeActionView::Complete(_) => Database { transaction: None, ..self },
            SubscribeActionView::Nothing => self,
        }
    }
}

/// The tables with the new subscriber, pending confirmation, and the token
/// bound to that subscriber.
pub open spec fn with_subscriber(
    tables: Tables,
    subscriber: NewSubscriberView,
    fresh: FreshView,
) -> Tables {
    tables.after(insertion(subscriber, fresh.subscriber_id, fresh.subscribed_at)).after(
        binding(fresh.subscriber_id, fresh.subscription_token),
    )
}

/// A sign-up under way: how far the workflow has come, the action that it
/// has asked for last, and the store.
pub struct SignUp {
    pub workflow: SubscribeWorkflowView,
    pub action: SubscribeActionView,
    pub database: Database,
}

impl SignUp {
    /// The sign-up with `form`, before anything is done: no transaction is
    /// open.
    pub open spec fn start(tables: Tables, form: FormDataView) -> SignUp {
        let (workflow, action) = SubscribeWorkflowView::start(form);
        SignUp { workflow, action, database: Database { tables, transaction: None } }
    }

    /// The sign-up after the pending action has been answered with `event`,
    /// where `fresh` is what the sign-up draws on its way.
    pub open spec fn react(
        self,
        state: StateView,
        event: SubscribeEventView,
        fresh: FreshView,
    ) -> SignUp {
        let (workflow, action) = self.workflow.step(state, event, fresh);
        SignUp { workflow, action, database: self.database.after(self.action, event) }
    }

    /// The sign-up after `events` have answered the actions, one after the
    /// other; nothing, if one of them is no answer that can be given.
    pub open spec fn run(
        self,
        state: StateView,
        events: Seq<SubscribeEventView>,
        fresh: FreshView,
    ) -> Option<SignUp>
        decreases events.len(),
    {
        if events.len() == 0 {
            Some(self)
        } else if !self.database.can_answer(self.action, events[0]) {
            None
        } else {
            self.react(state, events[0], fresh).run(state, events.drop_first(), fresh)
        }
    }

    /// What holds at every moment of a sign-up that started on `tables` with
    /// `form` and draws `fresh`.
    pub open spec fn consistent(
        self,
        state: StateView,
        tables: Tables,
        form: FormDataView,
        fresh: FreshView,
    ) -> bool {
        let unchanged = Database { tables, transaction: None };
        match validated(form) {
            Err(reason) => {
                &&& self.workflow == SubscribeWorkflowView::RejectedInvalid
                &&& self.database == unchanged
                &&& self.action == SubscribeActionView::Complete(
                    Err(SubscribeErrorView::ValidationError(reason)),
                ) || self.action == SubscribeActionView::Nothing
            },
            Ok(subscriber) => {
                let insert = insertion(subscriber, fresh.subscriber_id, fresh.subscribed_at);
                let bind = binding(fresh.subscriber_id, fresh.subscription_token);
                let inserted = tables.after(insert);
                let stored = inserted.after(bind);
                let committed = {
                    &&& self.database == Database { tables: stored, transaction: None }
                    &&& tables.accepts(insert)
                    &&& inserted.accepts(bind)
                };
                match self.workflow {
                    SubscribeWorkflowView::Validated { subscriber: s } => {
                        &&& s == subscriber
                        &&& self.action == SubscribeActionView::BeginTransaction
                        &&& self.database == unchanged
                    },
                    SubscribeWorkflowView::InTransaction { subscriber: s, subscriber_id: i } => {
                        &&& s == subscriber
                        &&& i == fresh.subscriber_id
                        &&& self.action == SubscribeActionView::Execute(insert)
                        &&& self.database == Database { tables, transaction: Some(tables) }
                    },
                    SubscribeWorkflowView::Stored { subscriber: s, subscription_token: t } => {
                        &&& s == subscriber
                        &&& t == fresh.subscription_token
                        &&& self.action == SubscribeActionView::Execute(bind)
                        &&& self.database == Database { tables, transaction: Some(inserted) }
                        &&& tables.accepts(insert)
                    },
                    SubscribeWorkflowView::TokenIssued { subscriber: s, subscription_token: t } => {
                        &&& s == subscriber
                        &&& t == fresh.subscription_token
                        &&& self.action == SubscribeActionView::Commit
                        &&& self.database == Database { tables, transaction: Some(stored) }
                        &&& tables.accepts(insert)
                        &&& inserted.accepts(bind)
                    },
                    SubscribeWorkflowView::Committed => {
                        &&& self.action == SubscribeActionView::SendEmail(
                            confirmation_email(
                                state.email_client,
                                subscriber,
                                state.base_url,
                                fresh.subscription_token,
                            ),
                        )
                        &&& committed
                    },
                    SubscribeWorkflowView::Accepted => {
                        &&& self.action == SubscribeActionView::Complete(Ok(CREATED))
                            || self.action == SubscribeActionView::Nothing
                        &&& committed
                    },
                    SubscribeWorkflowView::RejectedInvalid => false,
                    SubscribeWorkflowView::Failed => {
                        &&& self.database.tables == tables || committed
                        &&& match self.action {
                            SubscribeActionView::Complete(
                                Err(SubscribeErrorView::UnexpectedError(failure)),
                            ) => if failure.stage == Stage::SendConfirmationEmail {
                                committed
                            } else {
                                self.database.tables == tables
                            },
                            SubscribeActionView::Nothing => self.database.transaction is None,
                            _ => false,
                        }
                    },
                }
            },
        }
    }
}

/// A sign-up is consistent when it starts, and stays so whatever answer it
/// is given: every run of a sign-up is consistent at its end.
pub proof fn lemma_run_is_consistent(
    sign_up: SignUp,
    events: Seq<SubscribeEventView>,
    state: StateView,
    tables: Tables,
    form: FormDataView,
    fresh: FreshView,
)
    requires
        sign_up == SignUp::start(tables, form) || sign_up.consistent(state, tables, form, fresh),
        sign_up.run(state, events, fresh) is Some,
    ensures
        sign_up.run(state, events, fresh)->0.consistent(state, tables, form, fresh),
    decreases events.len(),
{
    if events.len() > 0 {
        lemma_run_is_consistent(
            sign_up.react(state, events[0], fresh),
            events.drop_first(),
            state,
            tables,
            form,
            fresh,
        );
    }
}

/// The subscriber and the token are stored together or not at all: at the
/// end of every run the tables are as they were, or they hold both new rows.
/// While the sign-up is under way nobody else sees a part of it, because the
/// tables change only when the transaction is committed.
pub proof fn lemma_sign_up_stores_both_rows_or_none(
    events: Seq<SubscribeEventView>,
    state: StateView,
    tables: Tables,
    form: FormDataView,
    fresh: FreshView,
)
    requires
        SignUp::start(tables, form).run(state, events, fresh) is Some,
    ensures
        ({
            let end = SignUp::start(tables, form).run(state, events, fresh)->0;
            match validated(form) {
                Err(_) => end.database.tables == tables,
                Ok(subscriber) => {
                    ||| end.database.tables == tables
                    ||| end.database.tables == with_subscriber(tables, subscriber, fresh)
                },
            }
        }),
{
    lemma_run_is_consistent(SignUp::start(tables, form), events, state, tables, form, fresh);
}

/// How a sign-up is answered tells what is stored. The answer to a refused
/// form is `422 Unprocessable Entity` with the reason, and nothing is
/// stored. The only answer of success is `201 Created`, and then both rows
/// are stored. A failure is answered with `500 Internal Server Error` and no
/// body: if it is the email that failed, both rows stay stored, and after
/// any other failure nothing is stored.
pub proof fn lemma_answer_tells_what_is_stored(
    events: Seq<SubscribeEventView>,
    state: StateView,
    tables: Tables,
    form: FormDataView,
    fresh: FreshView,
)
    requires
        SignUp::start(tables, form).run(state, events, fresh) is Some,
    ensures
        ({
            let end = SignUp::start(tables, form).run(state, events, fresh)->0;
            match end.action {
                SubscribeActionView::Complete(Ok(status)) => {
                    &&& status == CREATED
                    &&& validated(form) matches Ok(subscriber) && end.database.tables
                        == with_subscriber(tables, subscriber, fresh)
                },
                SubscribeActionView::Complete(Err(error)) => match error {
                    SubscribeErrorView::ValidationError(reason) => {
                        &&& error.into_response().status == UNPROCESSABLE_ENTITY
                        &&& error.into_response().body == reason
                        &&& validated(form) == Err::<NewSubscriberView, Seq<char>>(reason)
                        &&& end.database.tables == tables
                    },
                    SubscribeErrorView::UnexpectedError(failure) => {
                        &&& error.into_response().status == INTERNAL_SERVER_ERROR
                        &&& error.into_response().body.len() == 0
                        &&& validated(form) matches Ok(subscriber) && end.database.tables == (
                        if failure.stage == Stage::SendConfirmationEmail {
                            with_subscriber(tables, subscriber, fresh)
                        } else {
                            tables
                        })
                    },
                },
                _ => true,
            }
        }),
{
    lemma_run_is_consistent(SignUp::start(tables, form), events, state, tables, form, fresh);
}

/// Durability comes before notification: when the email is asked to be
/// sent, the transaction is committed and both rows are stored, and the link
/// in the email carries the token that is stored.
pub proof fn lemma_email_is_sent_for_what_is_committed(
    events: Seq<SubscribeEventView>,
    state: StateView,
    tables: Tables,
    form: FormDataView,
    fresh: FreshView,
)
    requires
        SignUp::start(tables, form).run(state, events, fresh) is Some,
        SignUp::start(tables, form).run(state, events, fresh)->0.action is SendEmail,
    ensures
        ({
            let end = SignUp::start(tables, form).run(state, events, fresh)->0;
            &&& validated(form) matches Ok(subscriber) && {
                &&& end.action == SubscribeActionView::SendEmail(
                    confirmation_email(
                        state.email_client,
                        subscriber,
                        state.base_url,
                        fresh.subscription_token,
                    ),
                )
                &&& end.database.tables == with_subscriber(tables, subscriber, fresh)
            }
            &&& end.database.transaction is None
        }),
{
    lemma_run_is_consistent(SignUp::start(tables, form), events, state, tables, form, fresh);
}

/// What both rows are, once they are stored: the identifier and the token
/// were not in use before, the subscriber is stored as the form gave it and
/// pending confirmation, the token is bound to that subscriber, and every
/// other row is as it was.
pub proof fn lemma_stored_sign_up_adds_one_row_to_each_table(
    events: Seq<SubscribeEventView>,
    state: StateView,
    tables: Tables,
    form: FormDataView,
    fresh: FreshView,
)
    requires
        SignUp::start(tables, form).run(state, events, fresh) is Some,
        SignUp::start(tables, form).run(state, events, fresh)->0.database.tables != tables,
    ensures
        ({
            let stored = SignUp::start(tables, form).run(state, events, fresh)->0.database.tables;
            &&& !tables.subscription.dom().contains(fresh.subscriber_id)
            &&& !tables.subscription_token.dom().contains(fresh.subscription_token)
            &&& stored.subscription.dom() == tables.subscription.dom().insert(fresh.subscriber_id)
            &&& stored.subscription_token.dom() == tables.subscription_token.dom().insert(
                fresh.subscription_token,
            )
            &&& stored.subscription[fresh.subscriber_id] == (Subscription {
                email: form.email,
                name: form.name,
                subscribed_at: fresh.subscribed_at,
                status: SubscriptionStatus::PendingConfirmation,
            })
            &&& stored.subscription_token[fresh.subscription_token] == fresh.subscriber_id
            &&& forall|id: crate::store::SubscriberId| #[trigger]
                tables.subscription.dom().contains(id) ==> stored.subscription[id]
                    == tables.subscription[id]
            &&& forall|token: Seq<char>| #[trigger]
                tables.subscription_token.dom().contains(token) ==> stored.subscription_token[token]
                    == tables.subscription_token[token]
            &&& tables.well_formed() ==> stored.well_formed()
        }),
{
    lemma_run_is_consistent(SignUp::start(tables, form), events, state, tables, form, fresh);
    let subscriber = validated(form)->Ok_0;
    let insert = insertion(subscriber, fresh.subscriber_id, fresh.subscribed_at);
    let bind = binding(fresh.subscriber_id, fresh.subscription_token);
    if tables.well_formed() {
        lemma_after_keeps_well_formed(tables, insert);
        lemma_after_keeps_well_formed(tables.after(insert), bind);
    }
}

/// Success is owed where nothing fails: if the form is valid, the fresh
/// identifier and token are not in use, and the store and the email provider
/// answer each of the five actions with success, then the request is
/// answered with `201 Created` and both rows are stored.
pub proof fn lemma_sign_up_succeeds_where_nothing_fails(
    state: StateView,
    tables: Tables,
    form: FormDataView,
    fresh: FreshView,
)
    requires
        validated(form) is Ok,
        !tables.subscription.dom().contains(fresh.subscriber_id),
        !tables.subscription_token.dom().contains(fresh.subscription_token),
    ensures
        ({
            let done = SubscribeEventView::Store(Ok(()));
            let sent = SubscribeEventView::Email(Ok(()));
            let end = SignUp::start(tables, form).run(
                state,
                seq![done, done, done, done, sent],
                fresh,
            );
            &&& end is Some
            &&& end->0.workflow == SubscribeWorkflowView::Accepted
            &&& end->0.action == SubscribeActionView::Complete(Ok(CREATED))
            &&& end->0.database == Database {
                tables: with_subscriber(tables, validated(form)->Ok_0, fresh),
                transaction: None,
            }
        }),
{
    let done = SubscribeEventView::Store(Ok(()));
    let sent = SubscribeEventView::Email(Ok(()));
    let e0 = seq![done, done, done, done, sent];
    let e1 = e0.drop_first();
    let e2 = e1.drop_first();
    let e3 = e2.drop_first();
    let e4 = e3.drop_first();
    let e5 = e4.drop_first();
    let s0 = SignUp::start(tables, form);
    let s1 = s0.react(state, done, fresh);
    let s2 = s1.react(state, done, fresh);
    let s3 = s2.react(state, done, fresh);
    let s4 = s3.react(state, done, fresh);
    let s5 = s4.react(state, sent, fresh);
    assert(e5.len() == 0);
    assert(s5.run(state, e5, fresh) == Some(s5));
    assert(e4[0] == sent);
    assert(s4.run(state, e4, fresh) == Some(s5));
    assert(e3[0] == done);
    assert(s3.run(state, e3, fresh) == Some(s5));
    assert(e2[0] == done);
    assert(s2.run(state, e2, fresh) == Some(s5));
    assert(e1[0] == done);
    assert(s1.run(state, e1, fresh) == Some(s5));
    assert(e0[0] == done);
    assert(s0.run(state, e0, fresh) == Some(s5));
}

/// A failed email does not undo the commit: if everything succeeds but the
/// sending of the email, the request is answered with
/// `500 Internal Server Error`, and both rows are stored all the same, the
/// subscriber pending confirmation.
pub proof fn lemma_failed_email_keeps_what_is_committed(
    state: StateView,
    tables: Tables,
    form: FormDataView,
    fresh: FreshView,
    error: EmailErrorView,
)
    requires
        validated(form) is Ok,
        !tables.subscription.dom().contains(fresh.subscriber_id),
        !tables.subscription_token.dom().contains(fresh.subscription_token),
    ensures
        ({
            let done = SubscribeEventView::Store(Ok(()));
            let unsent = SubscribeEventView::Email(Err(error));
            let end = SignUp::start(tables, form).run(
                state,
                seq![done, done, done, done, unsent],
                fresh,
            );
            let failure = SubscribeErrorView::UnexpectedError(
                FailureView { stage: Stage::SendConfirmationEmail, cause: CauseView::Email(error) },
            );
            &&& end is Some
            &&& end->0.workflow == SubscribeWorkflowView::Failed
            &&& end->0.action == SubscribeActionView::Complete(Err(failure))
            &&& failure.status_code() == INTERNAL_SERVER_ERROR
            &&& end->0.database.tables == with_subscriber(tables, validated(form)->Ok_0, fresh)
            &&& end->0.database.tables.subscription[fresh.subscriber_id].status
                == SubscriptionStatus::PendingConfirmation
        }),
{
    let done = SubscribeEventView::Store(Ok(()));
    let unsent = SubscribeEventView::Email(Err(error));
    let e0 = seq![done, done, done, done, unsent];
    let e1 = e0.drop_first();
    let e2 = e1.drop_first();
    let e3 = e2.drop_first();
    let e4 = e3.drop_first();
    let e5 = e4.drop_first();
    let s0 = SignUp::start(tables, form);
    let s1 = s0.react(state, done, fresh);
    let s2 = s1.react(state, done, fresh);
    let s3 = s2.react(state, done, fresh);
    let s4 = s3.react(state, done, fresh);
    let s5 = s4.react(state, unsent, fresh);
    assert(e5.len() == 0);
    assert(s5.run(state, e5, fresh) == Some(s5));
    assert(e4[0] == unsent);
    assert(s4.run(state, e4, fresh) == Some(s5));
    assert(e3[0] == done);
    assert(s3.run(state, e3, fresh) == Some(s5));
    assert(e2[0] == done);
    assert(s2.run(state, e2, fresh) == Some(s5));
    assert(e1[0] == done);
    assert(s1.run(state, e1, fresh) == Some(s5));
    assert(e0[0] == done);
    assert(s0.run(state, e0, fresh) == Some(s5));
}

} // verus!

//! A confirmation against the subscriber store: a known token confirms its
//! subscriber and nothing else, as often as it is presented, and an unknown
//! token changes nothing.

use crate::http::{INTERNAL_SERVER_ERROR, OK, UNAUTHORIZED};
use crate::routes::subscriptions_confirm::{
    ConfirmActionView, ConfirmErrorView, ConfirmEventView, ConfirmWorkflow, ParametersView,
};
use crate::store::{
    lemma_confirm_is_idempotent, StatementView, SubscriberId, Subscription, SubscriptionStatus,
    Tables,
};
use vstd::prelude::*;

verus! {

/// Whether `event` is an answer that `tables` can give to `action`: a
/// question is answered with the subscriber that the token is bound to, or
/// with none if it is bound to none. The store may fail at anything.
pub open spec fn can_answer(
    tables: Tables,
    action: ConfirmActionView,
    event: ConfirmEventView,
) -> bool {
    match action {
        ConfirmActionView::Fetch(statement) => {
            &&& event is Lookup
            &&& event matches ConfirmEventView::Lookup(Ok(found)) ==> statement
                matches StatementView::GetSubscriberIdFromToken { subscription_token } && found
                == tables.subscriber_of(subscription_token)
        },
        ConfirmActionView::Execute(statement) => {
            &&& event is Update
            &&& event matches ConfirmEventView::Update(Ok(_)) ==> tables.accepts(statement)
        },
        ConfirmActionView::Complete(_) => true,
        ConfirmActionView::Nothing => true,
    }
}

/// The tables after `action` has been answered with `event`.
pub open spec fn after(
    tables: Tables,
    action: ConfirmActionView,
    event: ConfirmEventView,
) -> Tables {
    match action {
        ConfirmActionView::Execute(statement) => if event matches ConfirmEventView::Update(Ok(_)) {
            tables.after(statement)
        } else {
            tables
        },
        _ => tables,
    }
}

/// The tables after the subscriber has been marked as confirmed.
pub open spec fn with_confirmed(tables: Tables, subscriber_id: SubscriberId) -> Tables {
    tables.after(StatementView::ConfirmSubscriber { subscriber_id })
}

/// A confirmation under way: how far the workflow has come, the action that
/// it has asked for last, and the tables.
pub struct Confirmation {
    pub workflow: ConfirmWorkflow,
    pub action: ConfirmActionView,
    pub tables: Tables,
}

impl Confirmation {
    /// The confirmation that `parameters` ask for, before anything is done.
    pub open spec fn start(tables: Tables, parameters: ParametersView) -> Confirmation {
        let (workflow, action) = ConfirmWorkflow::start(parameters);
        Confirmation { workflow, action, tables }
    }

    /// The confirmation after the pending action has been answered with
    /// `event`.
    pub open spec fn react(self, event: ConfirmEventView) -> Confirmation {
        let (workflow, action) = self.workflow.next(event);
        Confirmation { workflow, action, tables: after(self.tables, self.action, event) }
    }

    /// The confirmation after `events` have answered the actions, one after
    /// the other; nothing, if one of them is no answer that can be given.
    pub open spec fn run(self, events: Seq<ConfirmEventView>) -> Option<Confirmation>
        decreases events.len(),
    {
        if events.len() == 0 {
            Some(self)
        } else if !can_answer(self.tables, self.action, events[0]) {
            None
        } else {
            self.react(events[0]).run(events.drop_first())
        }
    }

    /// What holds of a confirmation that started on `tables` with
    /// `parameters`, at every moment.
    pub open spec fn consistent(self, tables: Tables, parameters: ParametersView) -> bool {
        let token = parameters.subscription_token;
        match self.workflow {
            ConfirmWorkflow::Requested => {
                &&& self.action == ConfirmActionView::Fetch(
                    StatementView::GetSubscriberIdFromToken { subscription_token: token },
                )
                &&& self.tables == tables
            },
            ConfirmWorkflow::Found { subscriber_id } => {
                &&& tables.subscriber_of(token) == Some(subscriber_id)
                &&& self.action == ConfirmActionView::Execute(
                    StatementView::ConfirmSubscriber { subscriber_id },
                )
                &&& self.tables == tables
            },
            ConfirmWorkflow::Confirmed => {
                &&& tables.subscriber_of(token) matches Some(subscriber_id) && self.tables
                    == with_confirmed(tables, subscriber_id)
                &&& self.action == ConfirmActionView::Complete(Ok(OK)) || self.action
                    == ConfirmActionView::Nothing
            },
            ConfirmWorkflow::Unauthorized => {
                &&& tables.subscriber_of(token) is None
                &&& self.tables == tables
                &&& self.action == ConfirmActionView::Complete(
                    Err(ConfirmErrorView::NonExistingToken),
                ) || self.action == ConfirmActionView::Nothing
            },
            ConfirmWorkflow::Failed => {
                &&& self.tables == tables
                &&& self.action is Nothing || self.action matches ConfirmActionView::Complete(
                    Err(ConfirmErrorView::UnexpectedError(_)),
                )
            },
        }
    }
}

/// Every run of a confirmation is consistent at its end.
pub proof fn lemma_run_is_consistent(
    confirmation: Confirmation,
    events: Seq<ConfirmEventView>,
    tables: Tables,
    parameters: ParametersView,
)
    requires
        confirmation.consistent(tables, parameters),
        confirmation.run(events) is Some,
    ensures
        confirmation.run(events)->0.consistent(tables, parameters),
    decreases events.len(),
{
    if events.len() > 0 {
        lemma_run_is_consistent(
            confirmation.react(events[0]),
            events.drop_first(),
            tables,
            parameters,
        );
    }
}

/// An unknown token changes nothing: at the end of every run the tables are
/// as they were, and the request is never answered with success; where the
/// store has answered, the answer to the request is `401 Unauthorized`.
pub proof fn lemma_unknown_token_changes_nothing(
    events: Seq<ConfirmEventView>,
    tables: Tables,
    parameters: ParametersView,
)
    requires
        tables.subscriber_of(parameters.subscription_token) is None,
        Confirmation::start(tables, parameters).run(events) is Some,
    ensures
        ({
            let end = Confirmation::start(tables, parameters).run(events)->0;
            &&& end.tables == tables
            &&& !(end.action matches ConfirmActionView::Complete(Ok(_)))
            &&& end.workflow != ConfirmWorkflow::Failed ==> (end.action
                matches ConfirmActionView::Complete(Err(error)) ==> error.status_code()
                == UNAUTHORIZED)
            &&& end.workflow == ConfirmWorkflow::Failed ==> (end.action
                matches ConfirmActionView::Complete(Err(error)) ==> error.status_code()
                == INTERNAL_SERVER_ERROR)
        }),
{
    lemma_run_is_consistent(Confirmation::start(tables, parameters), events, tables, parameters);
}

/// A known token confirms its subscriber and nothing else: at the end of
/// every run the tables are as they were, or the subscriber of the token is
/// confirmed and every other row is as it was. The only answer of success is
/// `200 OK`, and then the subscriber is confirmed; after a failure, which is
/// answered with `500 Internal Server Error`, the tables are as they were.
pub proof fn lemma_known_token_confirms_its_subscriber(
    events: Seq<ConfirmEventView>,
    tables: Tables,
    parameters: ParametersView,
    subscriber_id: SubscriberId,
)
    requires
        tables.well_formed(),
        tables.subscriber_of(parameters.subscription_token) == Some(subscriber_id),
        Confirmation::start(tables, parameters).run(events) is Some,
    ensures
        ({
            let end = Confirmation::start(tables, parameters).run(events)->0;
            let confirmed = with_confirmed(tables, subscriber_id);
            &&& end.tables == tables || end.tables == confirmed
            &&& match end.action {
                ConfirmActionView::Complete(Ok(status)) => status == OK && end.tables == confirmed,
                ConfirmActionView::Complete(Err(error)) => error.status_code()
                    == INTERNAL_SERVER_ERROR && end.tables == tables,
                _ => true,
            }
            &&& confirmed.subscription_token == tables.subscription_token
            &&& confirmed.subscription.dom() == tables.subscription.dom()
            &&& confirmed.subscription[subscriber_id] == (Subscription {
                status: SubscriptionStatus::Confirmed,
                ..tables.subscription[subscriber_id]
            })
            &&& forall|id: SubscriberId| #[trigger]
                tables.subscription.dom().contains(id) && id != subscriber_id
                    ==> confirmed.subscription[id] == tables.subscription[id]
        }),
{
    lemma_run_is_consistent(Confirmation::start(tables, parameters), events, tables, parameters);
    let confirmed = with_confirmed(tables, subscriber_id);
    assert(tables.subscription_token.dom().contains(parameters.subscription_token));
    assert(confirmed.subscription.dom() =~= tables.subscription.dom());
}

/// Confirming again changes nothing more: every run on tables in which the
/// subscriber of the token is confirmed already leaves them as they are, and
/// where the store does not fail it is answered with `200 OK` as the first
/// one was.
pub proof fn lemma_confirming_again_changes_nothing(
    events: Seq<ConfirmEventView>,
    tables: Tables,
    parameters: ParametersView,
    subscriber_id: SubscriberId,
)
    requires
        tables.subscriber_of(parameters.subscription_token) == Some(subscriber_id),
        Confirmation::start(with_confirmed(tables, subscriber_id), parameters).run(events)
            is Some,
    ensures
        ({
            let confirmed = with_confirmed(tables, subscriber_id);
            let end = Confirmation::start(confirmed, parameters).run(events)->0;
            let found = ConfirmEventView::Lookup(Ok(Some(subscriber_id)));
            let updated = ConfirmEventView::Update(Ok(()));
            let again = Confirmation::start(confirmed, parameters).run(seq![found, updated]);
            &&& end.tables == confirmed
            &&& end.action matches ConfirmActionView::Complete(Ok(status)) ==> status == OK
            &&& again is Some
            &&& again->0.action == ConfirmActionView::Complete(Ok(OK))
            &&& again->0.tables == confirmed
        }),
{
    let confirmed = with_confirmed(tables, subscriber_id);
    assert(confirmed.subscriber_of(parameters.subscription_token) == Some(subscriber_id));
    lemma_run_is_consistent(
        Confirmation::start(confirmed, parameters),
        events,
        confirmed,
        parameters,
    );
    lemma_confirm_is_idempotent(tables, subscriber_id);
    lemma_confirmation_succeeds_where_nothing_fails(confirmed, parameters, subscriber_id);
}

/// Success is owed where the store does not fail: if the token is bound to
/// a subscriber, and the store answers the question with that subscriber and
/// the update with success, then the request is answered with `200 OK` and
/// the subscriber is confirmed.
pub proof fn lemma_confirmation_succeeds_where_nothing_fails(
    tables: Tables,
    parameters: ParametersView,
    subscriber_id: SubscriberId,
)
    requires
        tables.subscriber_of(parameters.subscription_token) == Some(subscriber_id),
    ensures
        ({
            let found = ConfirmEventView::Lookup(Ok(Some(subscriber_id)));
            let updated = ConfirmEventView::Update(Ok(()));
            let end = Confirmation::start(tables, parameters).run(seq![found, updated]);
            &&& end is Some
            &&& end->0.workflow == ConfirmWorkflow::Confirmed
            &&& end->0.action == ConfirmActionView::Complete(Ok(OK))
            &&& end->0.tables == with_confirmed(tables, subscriber_id)
        }),
{
    let found = ConfirmEventView::Lookup(Ok(Some(subscriber_id)));
    let updated = ConfirmEventView::Update(Ok(()));
    let e0 = seq![found, updated];
    let e1 = e0.drop_first();
    let e2 = e1.drop_first();
    let c0 = Confirmation::start(tables, parameters);
    let c1 = c0.react(found);
    let c2 = c1.react(updated);
    assert(e2.len() == 0);
    assert(c2.run(e2) == Some(c2));
    assert(e1[0] == updated);
    assert(c1.run(e1) == Some(c2));
    assert(e0[0] == found);
    assert(c0.run(e0) == Some(c2));
}

/// An unknown token is owed its refusal: if the token is bound to nobody and
/// the store says so, the request is answered with `401 Unauthorized`, and
/// the tables are as they were.
pub proof fn lemma_unknown_token_is_refused(tables: Tables, parameters: ParametersView)
    requires
        tables.subscriber_of(parameters.subscription_token) is None,
    ensures
        ({
            let missing = ConfirmEventView::Lookup(Ok(None));
            let end = Confirmation::start(tables, parameters).run(seq![missing]);
            &&& end is Some
            &&& end->0.workflow == ConfirmWorkflow::Unauthorized
            &&& end->0.action matches ConfirmActionView::Complete(Err(error))
                && error == ConfirmErrorView::NonExistingToken && error.status_code()
                == UNAUTHORIZED
            &&& end->0.tables == tables
        }),
{
    let missing = ConfirmEventView::Lookup(Ok(None));
    let e0 = seq![missing];
    let e1 = e0.drop_first();
    let c0 = Confirmation::start(tables, parameters);
    let c1 = c0.react(missing);
    assert(e1.len() == 0);
    assert(c1.run(e1) == Some(c1));
    assert(e0[0] == missing);
    assert(c0.run(e0) == Some(c1));
}

} // verus!

use zero2prod::failure::{Cause, Failure, Stage, StoreError, StoreErrorKind};
use zero2prod::http::Response;
use zero2prod::routes::subscriptions_confirm::{
    confirm, confirm_subscriber, get_subscriber_id_from_token, ConfirmAction, ConfirmError,
    ConfirmEvent, ConfirmWorkflow, Parameters,
};
use zero2prod::store::{Statement, SubscriberId};

const TOKEN: &str = "0123456789abcdefghijABCDE";

fn store_failure() -> StoreError {
    StoreError { kind: StoreErrorKind::Unavailable, detail: "pool timed out".to_string() }
}

fn failed(stage: Stage, cause: Cause) -> ConfirmAction {
    ConfirmAction::Complete(Err(ConfirmError::UnexpectedError(Failure { stage, cause })))
}

#[test]
fn the_statements_of_a_confirmation_carry_what_they_ask_for() {
    let lookup = get_subscriber_id_from_token(TOKEN);
    assert_eq!(
        lookup,
        Statement::GetSubscriberIdFromToken { subscription_token: TOKEN.to_string() }
    );
    assert_eq!(
        lookup.sql(),
        "SELECT subscriber_id FROM subscription_token WHERE subscription_token = $1"
    );
    let update = confirm_subscriber(SubscriberId { value: 42 });
    assert_eq!(update, Statement::ConfirmSubscriber { subscriber_id: SubscriberId { value: 42 } });
    assert_eq!(update.sql(), "UPDATE subscription SET status = 'confirmed' WHERE id = $1");
    assert_eq!(update.clone(), update);
}

#[test]
fn a_confirmation_starts_by_looking_the_token_up() {
    let (workflow, action) = confirm(Parameters::new(TOKEN.to_string()));

    assert_eq!(workflow, ConfirmWorkflow::Requested);
    assert_eq!(action, ConfirmAction::Fetch(get_subscriber_id_from_token(TOKEN)));
}

#[test]
fn a_known_token_has_its_subscriber_confirmed() {
    let id = SubscriberId { value: 42 };
    let (workflow, action) = ConfirmWorkflow::Requested.step(ConfirmEvent::Lookup(Ok(Some(id))));

    assert_eq!(workflow, ConfirmWorkflow::Found { subscriber_id: id });
    assert_eq!(action, ConfirmAction::Execute(confirm_subscriber(id)));

    let (workflow, action) = workflow.step(ConfirmEvent::Update(Ok(())));

    assert_eq!(workflow, ConfirmWorkflow::Confirmed);
    assert_eq!(action, ConfirmAction::Complete(Ok(200)));
}

#[test]
fn an_unknown_token_is_refused_without_a_word_to_the_store() {
    let (workflow, action) = ConfirmWorkflow::Requested.step(ConfirmEvent::Lookup(Ok(None)));

    assert_eq!(workflow, ConfirmWorkflow::Unauthorized);
    assert_eq!(action, ConfirmAction::Complete(Err(ConfirmError::NonExistingToken)));
}

#[test]
fn a_failure_of_the_store_ends_the_confirmation_at_its_stage() {
    let (workflow, action) =
        ConfirmWorkflow::Requested.step(ConfirmEvent::Lookup(Err(store_failure())));
    assert_eq!(workflow, ConfirmWorkflow::Failed);
    assert_eq!(action, failed(Stage::GetSubscriberId, Cause::Store(store_failure())));

    let found = ConfirmWorkflow::Found { subscriber_id: SubscriberId { value: 42 } };
    let (workflow, action) = found.step(ConfirmEvent::Update(Err(store_failure())));
    assert_eq!(workflow, ConfirmWorkflow::Failed);
    assert_eq!(action, failed(Stage::ConfirmSubscriber, Cause::Store(store_failure())));
}

#[test]
fn an_answer_to_another_statement_is_a_failure() {
    let (workflow, action) = ConfirmWorkflow::Requested.step(ConfirmEvent::Update(Ok(())));
    assert_eq!(workflow, ConfirmWorkflow::Failed);
    assert_eq!(action, failed(Stage::GetSubscriberId, Cause::UnexpectedReply));

    let found = ConfirmWorkflow::Found { subscriber_id: SubscriberId { value: 42 } };
    let (workflow, action) = found.step(ConfirmEvent::Lookup(Ok(None)));
    assert_eq!(workflow, ConfirmWorkflow::Failed);
    assert_eq!(action, failed(Stage::ConfirmSubscriber, Cause::UnexpectedReply));
}

#[test]
fn an_answered_confirmation_asks_for_nothing_more() {
    for ended in [ConfirmWorkflow::Confirmed, ConfirmWorkflow::Unauthorized, ConfirmWorkflow::Failed]
    {
        let (workflow, action) = ended.step(ConfirmEvent::Update(Ok(())));
        assert_eq!(workflow, ended);
        assert_eq!(action, ConfirmAction::Nothing);
        let (workflow, action) = ended.step(ConfirmEvent::Lookup(Ok(None)));
        assert_eq!(workflow, ended);
        assert_eq!(action, ConfirmAction::Nothing);
    }
}

#[test]
fn an_unknown_token_is_answered_with_401() {
    let error = ConfirmError::NonExistingToken;
    assert_eq!(error.status_code(), 401);
    assert_eq!(error.to_string(), "Non-existing token");
    assert_eq!(error.into_response(), Response { status: 401, body: String::new() });
}

#[test]
fn a_failed_confirmation_is_answered_with_500_and_no_detail() {
    let stages = [
        (Stage::GetSubscriberId, "Failed to get an optional subscriber id from token"),
        (Stage::ConfirmSubscriber, "Failed to confirm subscriber"),
    ];
    for (stage, context) in stages {
        let error =
            ConfirmError::UnexpectedError(Failure { stage, cause: Cause::Store(store_failure()) });
        assert_eq!(error.status_code(), 500);
        assert_eq!(error.to_string(), context);
        assert_eq!(error.clone().into_response(), Response { status: 500, body: String::new() });
    }
}

#[test]
fn the_parameters_are_read_from_the_query() {
    assert_eq!(
        Parameters::parse(b"subscription_token=0123456789abcdefghijABCDE"),
        Ok(Parameters::new(TOKEN.to_string()))
    );
    assert_eq!(
        Parameters::parse(b"utm_source=mail&subscription_token=a%20b"),
        Ok(Parameters::new("a b".to_string()))
    );
    let fields = vec![("subscription_token".to_string(), TOKEN.to_string())];
    assert_eq!(Parameters::from_fields(&fields), Ok(Parameters::new(TOKEN.to_string())));
}

#[test]
fn a_query_without_the_token_is_a_bad_request() {
    let bad_request = Response {
        status: 400,
        body: "the query must hold the parameter `subscription_token` exactly once".to_string(),
    };
    assert_eq!(Parameters::parse(b""), Err(bad_request.clone()));
    assert_eq!(Parameters::parse(b"token=abc"), Err(bad_request.clone()));
    assert_eq!(
        Parameters::parse(b"subscription_token=a&subscription_token=a"),
        Err(bad_request.clone())
    );
    assert_eq!(Parameters::from_fields(&Vec::new()), Err(bad_request));
}

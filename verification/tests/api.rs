use zero2prod::domain::SubscriberEmail;
use zero2prod::email_client::{EmailClient, EmailRequest};
use zero2prod::failure::{
    Cause, EmailError, Failure, Stage, StoreError, StoreErrorKind,
};
use zero2prod::http::Response;
use zero2prod::routes::subscriptions::{
    subscribe, FormData, Fresh, SubscribeAction, SubscribeError, SubscribeEvent,
    SubscribeWorkflow,
};
use zero2prod::routes::subscriptions_confirm::{
    confirm, ConfirmAction, ConfirmError, ConfirmEvent, ConfirmWorkflow, Parameters,
};
use zero2prod::routes::{health_check, publish_newsletter};
use zero2prod::routes::newsletter::{Content, Newsletter};
use zero2prod::state::State;
use zero2prod::store::{Statement, SubscriberId};

#[derive(Debug, Clone, PartialEq)]
struct Subscription {
    id: SubscriberId,
    email: String,
    name: String,
    subscribed_at: i128,
    status: String,
}

#[derive(Debug, Clone, PartialEq, Default)]
struct Tables {
    subscription: Vec<Subscription>,
    subscription_token: Vec<(String, SubscriberId)>,
}

/// A store and an email provider that live in memory, either of which can be
/// told to fail.
struct TestApp {
    state: State,
    tables: Tables,
    transaction: Option<Tables>,
    failing_stage: Option<Stage>,
    email_status: u16,
    email_requests: Vec<EmailRequest>,
    /// What the next sign-up draws, where it is not left to chance.
    fresh: Option<Fresh>,
}

fn constraint_violation() -> StoreError {
    StoreError { kind: StoreErrorKind::ConstraintViolation, detail: "duplicate key".to_string() }
}

fn unavailable() -> StoreError {
    StoreError { kind: StoreErrorKind::Unavailable, detail: "pool timed out".to_string() }
}

fn execute(tables: &mut Tables, statement: &Statement) -> Result<Option<SubscriberId>, StoreError> {
    match statement {
        Statement::InsertSubscriber { id, email, name, subscribed_at } => {
            if tables.subscription.iter().any(|row| row.id == *id) {
                return Err(constraint_violation());
            }
            tables.subscription.push(Subscription {
                id: *id,
                email: email.clone(),
                name: name.clone(),
                subscribed_at: *subscribed_at,
                status: "pending_confirmation".to_string(),
            });
            Ok(None)
        }
        Statement::StoreToken { subscription_token, subscriber_id } => {
            if tables.subscription_token.iter().any(|row| row.0 == *subscription_token)
                || !tables.subscription.iter().any(|row| row.id == *subscriber_id)
            {
                return Err(constraint_violation());
            }
            tables.subscription_token.push((subscription_token.clone(), *subscriber_id));
            Ok(None)
        }
        Statement::GetSubscriberIdFromToken { subscription_token } => Ok(tables
            .subscription_token
            .iter()
            .find(|row| row.0 == *subscription_token)
            .map(|row| row.1)),
        Statement::ConfirmSubscriber { subscriber_id } => {
            for row in tables.subscription.iter_mut() {
                if row.id == *subscriber_id {
                    row.status = "confirmed".to_string();
                }
            }
            Ok(None)
        }
    }
}

impl TestApp {
    fn fails_at(&self, stage: Stage) -> bool {
        self.failing_stage == Some(stage)
    }

    fn run_subscription(
        &mut self,
        start: (SubscribeWorkflow, SubscribeAction),
    ) -> (SubscribeWorkflow, Result<u16, SubscribeError>) {
        let (mut workflow, mut action) = start;
        loop {
            let event = match action {
                SubscribeAction::BeginTransaction => {
                    if self.fails_at(Stage::AcquireConnection) {
                        SubscribeEvent::Store(Err(unavailable()))
                    } else {
                        self.transaction = Some(self.tables.clone());
                        SubscribeEvent::Store(Ok(()))
                    }
                }
                SubscribeAction::Execute(statement) => {
                    let stage = workflow.pending().unwrap();
                    let transaction = self.transaction.as_mut().unwrap();
                    if self.failing_stage == Some(stage) {
                        SubscribeEvent::Store(Err(unavailable()))
                    } else {
                        SubscribeEvent::Store(execute(transaction, &statement).map(|_| ()))
                    }
                }
                SubscribeAction::Commit => {
                    let transaction = self.transaction.take().unwrap();
                    if self.fails_at(Stage::CommitTransaction) {
                        SubscribeEvent::Store(Err(unavailable()))
                    } else {
                        self.tables = transaction;
                        SubscribeEvent::Store(Ok(()))
                    }
                }
                SubscribeAction::SendEmail(request) => {
                    self.email_requests.push(request);
                    SubscribeEvent::Email(EmailClient::error_for_status(self.email_status))
                }
                SubscribeAction::Complete(outcome) => {
                    self.transaction = None;
                    return (workflow, outcome);
                }
                SubscribeAction::Nothing => unreachable!(),
            };
            let next = match &self.fresh {
                Some(fresh) => {
                    let fresh = Fresh {
                        subscriber_id: fresh.subscriber_id,
                        subscribed_at: fresh.subscribed_at,
                        subscription_token: fresh.subscription_token.clone(),
                    };
                    workflow.advance(&self.state, event, fresh)
                }
                None => workflow.step(&self.state, event),
            };
            workflow = next.0;
            action = next.1;
        }
    }

    fn post_subscriptions(&mut self, body: &str) -> Response {
        let form = match FormData::parse(body.as_bytes()) {
            Ok(form) => form,
            Err(error) => return error.into_response(),
        };
        match self.run_subscription(subscribe(form)).1 {
            Ok(status) => Response::empty(status),
            Err(error) => error.into_response(),
        }
    }

    fn run_confirmation(
        &mut self,
        start: (ConfirmWorkflow, ConfirmAction),
    ) -> (ConfirmWorkflow, Result<u16, ConfirmError>) {
        let (mut workflow, mut action) = start;
        loop {
            let event = match action {
                ConfirmAction::Fetch(statement) => {
                    if self.fails_at(Stage::GetSubscriberId) {
                        ConfirmEvent::Lookup(Err(unavailable()))
                    } else {
                        ConfirmEvent::Lookup(execute(&mut self.tables, &statement))
                    }
                }
                ConfirmAction::Execute(statement) => {
                    if self.fails_at(Stage::ConfirmSubscriber) {
                        ConfirmEvent::Update(Err(unavailable()))
                    } else {
                        ConfirmEvent::Update(execute(&mut self.tables, &statement).map(|_| ()))
                    }
                }
                ConfirmAction::Complete(outcome) => return (workflow, outcome),
                ConfirmAction::Nothing => unreachable!(),
            };
            let next = workflow.step(event);
            workflow = next.0;
            action = next.1;
        }
    }

    fn get_confirm(&mut self, query: &str) -> Response {
        let parameters = match Parameters::parse(query.as_bytes()) {
            Ok(parameters) => parameters,
            Err(response) => return response,
        };
        match self.run_confirmation(confirm(parameters)).1 {
            Ok(status) => Response::empty(status),
            Err(error) => error.into_response(),
        }
    }

    /// The query of the confirmation link in the plain text of the last
    /// email.
    fn confirmation_query(&self) -> String {
        let text = &self.email_requests.last().unwrap().body.text_body;
        let prefix = "http://127.0.0.1/subscriptions/confirm?";
        let start = text.find(prefix).unwrap() + prefix.len();
        let end = start + text[start..].find(' ').unwrap();
        text[start..end].to_string()
    }
}

fn spawn_app() -> TestApp {
    let sender = SubscriberEmail::parse("newsletter@example.com".to_string()).unwrap();
    TestApp {
        state: State {
            email_client: EmailClient::new(
                "http://127.0.0.1:4010".to_string(),
                sender,
                "my-secret-token".to_string(),
                10000,
            ),
            base_url: "http://127.0.0.1".to_string(),
        },
        tables: Tables::default(),
        transaction: None,
        failing_stage: None,
        email_status: 200,
        email_requests: Vec::new(),
        fresh: None,
    }
}

#[test]
fn health_check_works() {
    let response = health_check();

    assert!((200..300).contains(&response.status));
    assert_eq!(response.body.len(), 0);
}

#[test]
fn subscribe_returns_a_200_for_valid_form_data() {
    let mut test_app = spawn_app();

    let body = "name=le%20guin&email=ursula_le_guin%40gmail.com";
    let response = test_app.post_subscriptions(body);

    assert_eq!(201, response.status);

    let saved = &test_app.tables.subscription[0];

    assert_eq!(saved.email, "ursula_le_guin@gmail.com");
    assert_eq!(saved.name, "le guin");
}

#[test]
fn subscribe_returns_a_422_when_data_is_missing() {
    let mut test_app = spawn_app();
    let test_cases = vec![
        ("name=le%20guin", "missing the email"),
        ("email=ursula_le_guin%40gmail.com", "missing the name"),
        ("", "missing both name and email"),
    ];
    for (invalid_body, error_message) in test_cases {
        let response = test_app.post_subscriptions(invalid_body);

        assert_eq!(
            422, response.status,
            "The API did not fail with 422 Unprocessable Entity when the payload was {}.",
            error_message
        );
    }
    assert_eq!(test_app.tables, Tables::default());
}

#[test]
fn subscribe_returns_a_422_when_fields_are_present_but_empty() {
    let mut app = spawn_app();
    let test_cases = vec![
        ("name=&email=ursula_le_guin%40gmail.com", "empty name"),
        ("name=Ursula&email=", "empty email"),
        ("name=Ursula&email=definitely-not-an-email", "invalid email"),
    ];

    for (body, description) in test_cases {
        let response = app.post_subscriptions(body);

        assert_eq!(
            422, response.status,
            "The API did not return a 400 Bad Request when the payload was {}.",
            description
        );
    }
    assert_eq!(app.tables, Tables::default());
}

#[test]
fn subscribe_returns_a_422_for_a_malformed_email_and_says_why() {
    let mut app = spawn_app();

    let response = app.post_subscriptions("name=Ursula&email=not-an-email");

    assert_eq!(response.status, 422);
    assert_eq!(response.body, "not-an-email is not a valid subscriber email.");
    assert_eq!(app.tables, Tables::default());
    assert!(app.email_requests.is_empty());
}

#[test]
fn subscribe_returns_a_422_when_a_field_is_repeated() {
    let mut app = spawn_app();

    let response = app.post_subscriptions("name=a&name=b&email=ursula_le_guin%40gmail.com");

    assert_eq!(response.status, 422);
    assert_eq!(response.body, "the form must hold the field `name` exactly once");
    assert_eq!(app.tables, Tables::default());
}

#[test]
fn subscribe_names_the_missing_email_before_the_missing_name() {
    let mut app = spawn_app();

    let response = app.post_subscriptions("");

    assert_eq!(response.status, 422);
    assert_eq!(response.body, "the form must hold the field `email` exactly once");
}

#[test]
fn subscribe_ignores_fields_it_does_not_know() {
    let mut app = spawn_app();

    let response =
        app.post_subscriptions("name=le+guin&email=ursula_le_guin%40gmail.com&plan=free");

    assert_eq!(response.status, 201);
    assert_eq!(app.tables.subscription[0].name, "le guin");
}

#[test]
fn subscribe_persists_one_pending_subscriber_and_sends_one_email_with_a_link() {
    let mut app = spawn_app();

    let response = app.post_subscriptions("name=le%20guin&email=ursula_le_guin%40gmail.com");

    assert_eq!(response.status, 201);
    assert_eq!(response.body, "");
    assert_eq!(app.tables.subscription.len(), 1);
    assert_eq!(app.tables.subscription[0].status, "pending_confirmation");
    assert_eq!(app.tables.subscription[0].email, "ursula_le_guin@gmail.com");
    assert_eq!(app.tables.subscription_token.len(), 1);
    assert_eq!(app.tables.subscription_token[0].1, app.tables.subscription[0].id);
    assert_eq!(app.transaction, None);

    assert_eq!(app.email_requests.len(), 1);
    let request = &app.email_requests[0];
    let token = &app.tables.subscription_token[0].0;
    let link = format!("http://127.0.0.1/subscriptions/confirm?subscription_token={}", token);
    assert_eq!(request.body.to, "ursula_le_guin@gmail.com");
    assert_eq!(request.body.from, "newsletter@example.com");
    assert_eq!(request.body.subject, "Welcome");
    assert_eq!(
        request.body.html_body,
        format!(
            "Welcome to our newsletter!<br />Click <a href=\"{}\">here</a> to confirm your subscription.",
            link
        )
    );
    assert_eq!(
        request.body.text_body,
        format!("Welcome to our newsletter!\nVisit {} to confirm your subscription.", link)
    );
}

#[test]
fn subscribe_stores_the_same_address_twice_with_two_tokens() {
    let mut app = spawn_app();
    let body = "name=le%20guin&email=ursula_le_guin%40gmail.com";

    assert_eq!(app.post_subscriptions(body).status, 201);
    assert_eq!(app.post_subscriptions(body).status, 201);

    assert_eq!(app.tables.subscription.len(), 2);
    assert_ne!(app.tables.subscription[0].id, app.tables.subscription[1].id);
    assert_eq!(app.tables.subscription_token.len(), 2);
    assert_ne!(app.tables.subscription_token[0].0, app.tables.subscription_token[1].0);
}

#[test]
fn subscribe_returns_a_500_and_keeps_the_subscriber_when_the_email_fails() {
    let mut app = spawn_app();
    app.email_status = 500;

    let response = app.post_subscriptions("name=le%20guin&email=ursula_le_guin%40gmail.com");

    assert_eq!(response.status, 500);
    assert_eq!(response.body, "");
    assert_eq!(app.email_requests.len(), 1);
    assert_eq!(app.tables.subscription.len(), 1);
    assert_eq!(app.tables.subscription[0].status, "pending_confirmation");
    assert_eq!(app.tables.subscription_token.len(), 1);
}

#[test]
fn subscribe_returns_a_500_and_stores_nothing_when_the_store_fails() {
    for stage in [
        Stage::AcquireConnection,
        Stage::InsertSubscriber,
        Stage::StoreToken,
        Stage::CommitTransaction,
    ] {
        let mut app = spawn_app();
        app.failing_stage = Some(stage);

        let form = FormData::new("le guin".to_string(), "ursula_le_guin@gmail.com".to_string());
        let (workflow, outcome) = app.run_subscription(subscribe(form));

        assert!(matches!(workflow, SubscribeWorkflow::Failed));
        assert_eq!(
            outcome,
            Err(SubscribeError::UnexpectedError(Failure {
                stage,
                cause: Cause::Store(unavailable()),
            }))
        );
        assert_eq!(outcome.unwrap_err().into_response(), Response::empty(500));
        assert_eq!(app.tables, Tables::default());
        assert_eq!(app.transaction, None);
        assert!(app.email_requests.is_empty());
    }
}

#[test]
fn subscribe_returns_a_500_when_the_token_is_taken() {
    let mut app = spawn_app();
    let body = "name=le%20guin&email=ursula_le_guin%40gmail.com";
    let token = "0123456789abcdefghijABCDE".to_string();

    app.fresh = Some(Fresh {
        subscriber_id: SubscriberId { value: 1 },
        subscribed_at: 1_700_000_000_000_000_000,
        subscription_token: token.clone(),
    });
    assert_eq!(app.post_subscriptions(body).status, 201);
    app.fresh = Some(Fresh {
        subscriber_id: SubscriberId { value: 2 },
        subscribed_at: 1_700_000_001_000_000_000,
        subscription_token: token.clone(),
    });
    let form = FormData::parse(body.as_bytes()).unwrap();
    let (workflow, outcome) = app.run_subscription(subscribe(form));

    assert!(matches!(workflow, SubscribeWorkflow::Failed));
    assert_eq!(
        outcome,
        Err(SubscribeError::UnexpectedError(Failure {
            stage: Stage::StoreToken,
            cause: Cause::Store(constraint_violation()),
        }))
    );
    assert_eq!(
        app.tables,
        Tables {
            subscription: vec![Subscription {
                id: SubscriberId { value: 1 },
                email: "ursula_le_guin@gmail.com".to_string(),
                name: "le guin".to_string(),
                subscribed_at: 1_700_000_000_000_000_000,
                status: "pending_confirmation".to_string(),
            }],
            subscription_token: vec![(token, SubscriberId { value: 1 })],
        }
    );
}

#[test]
fn subscribe_returns_a_500_when_the_identifier_is_taken() {
    let mut app = spawn_app();
    let body = "name=le%20guin&email=ursula_le_guin%40gmail.com";

    app.fresh = Some(Fresh {
        subscriber_id: SubscriberId { value: 1 },
        subscribed_at: 1_700_000_000_000_000_000,
        subscription_token: "0123456789abcdefghijABCDE".to_string(),
    });
    assert_eq!(app.post_subscriptions(body).status, 201);
    app.fresh = Some(Fresh {
        subscriber_id: SubscriberId { value: 1 },
        subscribed_at: 1_700_000_001_000_000_000,
        subscription_token: "EDCBAjihgfedcba9876543210".to_string(),
    });
    let response = app.post_subscriptions(body);

    assert_eq!(response, Response::empty(500));
    assert_eq!(app.tables.subscription.len(), 1);
    assert_eq!(app.tables.subscription_token.len(), 1);
    assert_eq!(app.email_requests.len(), 1);
}

#[test]
fn subscribe_reports_a_timeout_of_the_email_provider_as_a_failure() {
    let app = spawn_app();
    let event = SubscribeEvent::Email(Err(EmailError::Timeout));

    let (workflow, action) = SubscribeWorkflow::Committed.step(&app.state, event);

    assert!(matches!(workflow, SubscribeWorkflow::Failed));
    assert_eq!(
        action,
        SubscribeAction::Complete(Err(SubscribeError::UnexpectedError(Failure {
            stage: Stage::SendConfirmationEmail,
            cause: Cause::Email(EmailError::Timeout),
        })))
    );
}

#[test]
fn confirm_with_the_issued_token_returns_a_200_and_confirms_the_subscriber() {
    let mut app = spawn_app();
    app.post_subscriptions("name=le%20guin&email=ursula_le_guin%40gmail.com");
    let query = app.confirmation_query();

    let response = app.get_confirm(&query);

    assert_eq!(response.status, 200);
    assert_eq!(response.body, "");
    assert_eq!(app.tables.subscription.len(), 1);
    assert_eq!(app.tables.subscription[0].status, "confirmed");
    assert_eq!(app.tables.subscription[0].email, "ursula_le_guin@gmail.com");
    assert_eq!(app.tables.subscription[0].name, "le guin");
}

#[test]
fn confirm_twice_returns_a_200_twice_and_changes_nothing_more() {
    let mut app = spawn_app();
    app.post_subscriptions("name=le%20guin&email=ursula_le_guin%40gmail.com");
    let query = app.confirmation_query();

    assert_eq!(app.get_confirm(&query).status, 200);
    let confirmed = app.tables.clone();
    assert_eq!(app.get_confirm(&query).status, 200);

    assert_eq!(app.tables, confirmed);
}

#[test]
fn confirm_with_an_unknown_token_returns_a_401_and_changes_nothing() {
    let mut app = spawn_app();
    app.post_subscriptions("name=le%20guin&email=ursula_le_guin%40gmail.com");
    let stored = app.tables.clone();

    let response = app.get_confirm("subscription_token=0123456789abcdefghijABCDE");

    assert_eq!(response.status, 401);
    assert_eq!(response.body, "");
    assert_eq!(app.tables, stored);
    assert_eq!(app.tables.subscription[0].status, "pending_confirmation");
}

#[test]
fn confirm_confirms_only_the_subscriber_of_the_token() {
    let mut app = spawn_app();
    app.post_subscriptions("name=le%20guin&email=ursula_le_guin%40gmail.com");
    let query = app.confirmation_query();
    app.post_subscriptions("name=atwood&email=margaret_atwood%40gmail.com");

    assert_eq!(app.get_confirm(&query).status, 200);

    assert_eq!(app.tables.subscription[0].status, "confirmed");
    assert_eq!(app.tables.subscription[1].status, "pending_confirmation");
}

#[test]
fn confirm_without_a_token_returns_a_400() {
    let mut app = spawn_app();

    for query in ["", "token=abc", "subscription_token=a&subscription_token=b"] {
        let response = app.get_confirm(query);
        assert_eq!(response.status, 400);
        assert_eq!(
            response.body,
            "the query must hold the parameter `subscription_token` exactly once"
        );
    }
}

#[test]
fn confirm_returns_a_500_when_the_store_fails() {
    for stage in [Stage::GetSubscriberId, Stage::ConfirmSubscriber] {
        let mut app = spawn_app();
        app.post_subscriptions("name=le%20guin&email=ursula_le_guin%40gmail.com");
        let query = app.confirmation_query();
        app.failing_stage = Some(stage);

        let parameters = Parameters::parse(query.as_bytes()).unwrap();
        let (workflow, outcome) = app.run_confirmation(confirm(parameters));

        assert_eq!(workflow, ConfirmWorkflow::Failed);
        assert_eq!(
            outcome,
            Err(ConfirmError::UnexpectedError(Failure {
                stage,
                cause: Cause::Store(unavailable()),
            }))
        );
        assert_eq!(outcome.unwrap_err().into_response(), Response::empty(500));
        assert_eq!(app.tables.subscription[0].status, "pending_confirmation");
    }
}

#[test]
fn publish_newsletter_returns_a_200() {
    let content = Content::new("<p>News</p>".to_string(), "News".to_string());
    let newsletter = Newsletter::new("Issue 1".to_string(), content);

    assert_eq!(publish_newsletter(newsletter), 200);
}

use zero2prod::domain::SubscriberEmail;
use zero2prod::email_client::{EmailClient, EmailRequest};
use zero2prod::failure::EmailError;

fn email(s: &str) -> SubscriberEmail {
    SubscriberEmail::parse(s.to_string()).unwrap()
}

fn email_client() -> EmailClient {
    EmailClient::new(
        "http://127.0.0.1:4010".to_string(),
        email("newsletter@example.com"),
        "my-secret-token".to_string(),
        100,
    )
}

fn send_email(email_client: &EmailClient) -> EmailRequest {
    email_client.send_email(
        &email("ursula_le_guin@gmail.com"),
        "A sentence.",
        "<p>A paragraph.</p>",
        "A paragraph.",
    )
}

#[test]
fn send_email_sends_the_expected_request() {
    let request = send_email(&email_client());

    assert_eq!(request.path, "email");
    assert_eq!(request.header_name, "X-Postmark-Server-Token");
    assert_eq!(request.header_value, "my-secret-token");
    assert_eq!(request.body.from, "newsletter@example.com");
    assert_eq!(request.body.to, "ursula_le_guin@gmail.com");
    assert_eq!(request.body.subject, "A sentence.");
    assert_eq!(request.body.html_body, "<p>A paragraph.</p>");
    assert_eq!(request.body.text_body, "A paragraph.");
}

#[test]
fn send_email_succeeds_if_the_server_returns_200() {
    let outcome = EmailClient::error_for_status(200);

    assert!(outcome.is_ok());
}

#[test]
fn send_email_fails_if_the_server_returns_500() {
    let outcome = EmailClient::error_for_status(500);

    assert_eq!(outcome, Err(EmailError::Status { code: 500 }));
}

#[test]
fn every_status_from_200_to_299_is_a_success_and_no_other() {
    for status in 0..=999u16 {
        let outcome = EmailClient::error_for_status(status);
        if (200..300).contains(&status) {
            assert_eq!(outcome, Ok(()));
        } else {
            assert_eq!(outcome, Err(EmailError::Status { code: status }));
        }
    }
}

#[test]
fn the_client_keeps_what_it_was_made_with() {
    let client = email_client();
    assert_eq!(client.base_url(), "http://127.0.0.1:4010");
    assert_eq!(client.timeout_milliseconds(), 100);
}

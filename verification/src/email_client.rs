//! The client of the email provider: what is sent to deliver one email, and
//! how the provider's answer is read.

use crate::domain::subscriber_email::SubscriberEmail;
use crate::failure::EmailError;
use vstd::prelude::*;
use vstd::string::*;

verus! {

/// The path of the provider, relative to its base URL, that takes emails.
pub const SEND_EMAIL_PATH: &'static str = "email";

/// The name of the header that authorizes a request to the provider.
pub const AUTHORIZATION_HEADER: &'static str = "X-Postmark-Server-Token";

/// The body of a request to deliver one email.
#[derive(Debug, PartialEq, Eq)]
pub struct SendEmailRequest {
    pub from: String,
    pub to: String,
    pub subject: String,
    pub html_body: String,
    pub text_body: String,
}

/// What a [`SendEmailRequest`] stands for.
pub struct SendEmailRequestView {
    pub from: Seq<char>,
    pub to: Seq<char>,
    pub subject: Seq<char>,
    pub html_body: Seq<char>,
    pub text_body: Seq<char>,
}

impl View for SendEmailRequest {
    type V = SendEmailRequestView;

    open spec fn view(&self) -> SendEmailRequestView {
        SendEmailRequestView {
            from: self.from@,
            to: self.to@,
            subject: self.subject@,
            html_body: self.html_body@,
            text_body: self.text_body@,
        }
    }
}

/// A request to the email provider: a `POST` of `body` as JSON to `path`,
/// taken relative to the provider's base URL, with one header that
/// authorizes it.
#[derive(Debug, PartialEq, Eq)]
pub struct EmailRequest {
    pub path: String,
    pub header_name: String,
    pub header_value: String,
    pub body: SendEmailRequest,
}

/// What an [`EmailRequest`] stands for.
pub struct EmailRequestView {
    pub path: Seq<char>,
    pub header_name: Seq<char>,
    pub header_value: Seq<char>,
    pub body: SendEmailRequestView,
}

impl View for EmailRequest {
    type V = EmailRequestView;

    open spec fn view(&self) -> EmailRequestView {
        EmailRequestView {
            path: self.path@,
            header_name: self.header_name@,
            header_value: self.header_value@,
            body: self.body@,
        }
    }
}

/// The settings of a client of the email provider.
pub struct EmailClient {
    base_url: String,
    sender: SubscriberEmail,
    authorization_token: String,
    timeout_milliseconds: u64,
}

/// What an [`EmailClient`] stands for.
pub struct EmailClientView {
    pub base_url: Seq<char>,
    pub sender: Seq<char>,
    pub authorization_token: Seq<char>,
    pub timeout_milliseconds: u64,
}

impl View for EmailClient {
    type V = EmailClientView;

    closed spec fn view(&self) -> EmailClientView {
        EmailClientView {
            base_url: self.base_url@,
            sender: self.sender@,
            authorization_token: self.authorization_token@,
            timeout_milliseconds: self.timeout_milliseconds,
        }
    }
}

impl EmailClientView {
    /// The request that delivers one email from this client's sender.
    pub open spec fn send_email(
        self,
        recipient: Seq<char>,
        subject: Seq<char>,
        html_content: Seq<char>,
        text_content: Seq<char>,
    ) -> EmailRequestView {
        EmailRequestView {
            path: SEND_EMAIL_PATH@,
            header_name: AUTHORIZATION_HEADER@,
            header_value: self.authorization_token,
            body: SendEmailRequestView {
                from: self.sender,
                to: recipient,
                subject,
                html_body: html_content,
                text_body: text_content,
            },
        }
    }
}

/// Whether an HTTP status tells success.
pub open spec fn is_success(status: u16) -> bool {
    200 <= status < 300
}

impl EmailClient {
    /// A client that sends from `sender` through the provider at `base_url`,
    /// authorized by `authorization_token`, and waits for an answer no longer
    /// than `timeout_milliseconds`.
    pub fn new(
        base_url: String,
        sender: SubscriberEmail,
        authorization_token: String,
        timeout_milliseconds: u64,
    ) -> (client: EmailClient)
        ensures
            client@ == (EmailClientView {
                base_url: base_url@,
                sender: sender@,
                authorization_token: authorization_token@,
                timeout_milliseconds,
            }),
    {
        EmailClient { base_url, sender, authorization_token, timeout_milliseconds }
    }

    /// The provider's base URL.
    pub fn base_url(&self) -> (r: &str)
        ensures
            r@ == self@.base_url,
    {
        self.base_url.as_str()
    }

    /// How long to wait for the provider's answer, in milliseconds.
    pub fn timeout_milliseconds(&self) -> (r: u64)
        ensures
            r == self@.timeout_milliseconds,
    {
        self.timeout_milliseconds
    }

    /// The request that delivers one email to `recipient`.
    pub fn send_email(
        &self,
        recipient: &SubscriberEmail,
        subject: &str,
        html_content: &str,
        text_content: &str,
    ) -> (request: EmailRequest)
        ensures
            request@ == self@.send_email(recipient@, subject@, html_content@, text_content@),
    {
        EmailRequest {
            path: String::from_str(SEND_EMAIL_PATH),
            header_name: String::from_str(AUTHORIZATION_HEADER),
            header_value: self.authorization_token.clone(),
            body: SendEmailRequest {
                from: String::from_str(self.sender.as_ref()),
                to: String::from_str(recipient.as_ref()),
                subject: String::from_str(subject),
                html_body: String::from_str(html_content),
                text_body: String::from_str(text_content),
            },
        }
    }

    /// Reads the status of the provider's answer: any status that tells no
    /// success is an error.
    pub fn error_for_status(status: u16) -> (r: Result<(), EmailError>)
        ensures
            is_success(status) ==> r is Ok,
            !is_success(status) ==> r == Err::<(), EmailError>(EmailError::Status { code: status }),
    {
        if 200 <= status && status < 300 {
            Ok(())
        } else {
            Err(EmailError::Status { code: status })
        }
    }
}

impl Clone for SendEmailRequest {
    fn clone(&self) -> (r: Self)
        ensures
            r@ == self@,
    {
        SendEmailRequest {
            from: self.from.clone(),
            to: self.to.clone(),
            subject: self.subject.clone(),
            html_body: self.html_body.clone(),
            text_body: self.text_body.clone(),
        }
    }
}

impl Clone for EmailRequest {
    fn clone(&self) -> (r: Self)
        ensures
            r@ == self@,
    {
        EmailRequest {
            path: self.path.clone(),
            header_name: self.header_name.clone(),
            header_value: self.header_value.clone(),
            body: self.body.clone(),
        }
    }
}

} // verus!

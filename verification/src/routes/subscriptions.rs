//! Signing up: from a submitted form to a stored subscriber who has been sent
//! a confirmation link.

pub mod workflow;

pub use workflow::{
    Fresh, FreshView, SubscribeAction, SubscribeActionView, SubscribeEvent, SubscribeEventView,
    SubscribeWorkflow, SubscribeWorkflowView,
};

use crate::domain::new_subscriber::{NewSubscriber, NewSubscriberView};
use crate::domain::subscriber_email::{invalid_email_message, is_valid_email, SubscriberEmail};
use crate::domain::subscriber_name::{invalid_name_message, is_valid_name, SubscriberName};
use crate::email_client::{EmailClient, EmailClientView, EmailRequest, EmailRequestView};
use crate::failure::{Failure, FailureView};
use crate::form::{field, fields_view, find_field, urlencoded_fields};
use crate::http::{Response, ResponseView, INTERNAL_SERVER_ERROR, UNPROCESSABLE_ENTITY};
use crate::routes::subscriptions_confirm::{CONFIRM_PATH, TOKEN_PARAMETER};
use crate::store::{Statement, StatementView, SubscriberId};
use rand::distributions::{Alphanumeric, DistString};
use vstd::prelude::*;
use vstd::std_specs::convert::TryFromSpecImpl;
use vstd::string::*;

verus! {

/// The path under which sign-ups are taken.
pub const SUBSCRIPTIONS_PATH: &'static str = "/subscriptions";

/// The fields of the sign-up form.
#[derive(Debug, PartialEq, Eq)]
pub struct FormData {
    email: String,
    name: String,
}

/// What a [`FormData`] stands for.
pub struct FormDataView {
    pub email: Seq<char>,
    pub name: Seq<char>,
}

impl View for FormData {
    type V = FormDataView;

    closed spec fn view(&self) -> FormDataView {
        FormDataView { email: self.email@, name: self.name@ }
    }
}

impl FormData {
    /// A form filled in with `name` and `email`.
    pub fn new(name: String, email: String) -> (form: FormData)
        ensures
            form@ == (FormDataView { email: email@, name: name@ }),
    {
        FormData { email, name }
    }

    /// The form that `fields` fill in, or the reason why they do not.
    pub fn from_fields(fields: &Vec<(String, String)>) -> (r: Result<FormData, SubscribeError>)
        ensures
            match r {
                Ok(form) => filled_in(fields_view(fields@)) == Ok::<FormDataView, Seq<char>>(form@),
                Err(error) => error@ matches SubscribeErrorView::ValidationError(reason)
                    && filled_in(fields_view(fields@)) == Err::<FormDataView, Seq<char>>(reason),
            },
    {
        let email = match find_field(fields, "email") {
            Some(email) => email,
            None => {
                return Err(
                    SubscribeError::ValidationError(
                        String::from_str("the form must hold the field `email` exactly once"),
                    ),
                );
            },
        };
        let name = match find_field(fields, "name") {
            Some(name) => name,
            None => {
                return Err(
                    SubscribeError::ValidationError(
                        String::from_str("the form must hold the field `name` exactly once"),
                    ),
                );
            },
        };
        Ok(FormData { email, name })
    }

    /// Reads the form from the body of a request, or says why the body is
    /// no such form.
    pub fn parse(body: &[u8]) -> (r: Result<FormData, SubscribeError>)
        ensures
            match r {
                Ok(form) => filled_in(urlencoded_fields(body@)) == Ok::<FormDataView, Seq<char>>(
                    form@,
                ),
                Err(error) => error@ matches SubscribeErrorView::ValidationError(reason)
                    && filled_in(urlencoded_fields(body@)) == Err::<FormDataView, Seq<char>>(
                    reason,
                ),
            },
    {
        let fields = crate::form::parse(body);
        FormData::from_fields(&fields)
    }
}

/// The form that `fields` fill in: each of `email` and `name` is there
/// exactly once, whatever else is. Otherwise, the reason why they fill in
/// none; the email is looked for first.
pub open spec fn filled_in(fields: Seq<(Seq<char>, Seq<char>)>) -> Result<FormDataView, Seq<char>> {
    match (field(fields, "email"@), field(fields, "name"@)) {
        (Some(email), Some(name)) => Ok(FormDataView { email, name }),
        (None, _) => Err("the form must hold the field `email` exactly once"@),
        (Some(_), None) => Err("the form must hold the field `name` exactly once"@),
    }
}

/// What validating a form gives: the subscriber, or the reason why the form
/// is refused. The name is looked at first.
pub open spec fn validated(form: FormDataView) -> Result<NewSubscriberView, Seq<char>> {
    if !is_valid_name(form.name) {
        Err(invalid_name_message(form.name))
    } else if !is_valid_email(form.email) {
        Err(invalid_email_message(form.email))
    } else {
        Ok(NewSubscriberView { email: form.email, name: form.name })
    }
}

impl TryFrom<FormData> for NewSubscriber {
    type Error = String;

    /// Validates both fields of the form.
    fn try_from(value: FormData) -> (r: Result<NewSubscriber, String>)
        ensures
            match r {
                Ok(subscriber) => validated(value@) == Ok::<NewSubscriberView, Seq<char>>(
                    subscriber@,
                ),
                Err(reason) => validated(value@) == Err::<NewSubscriberView, Seq<char>>(reason@),
            },
    {
        let name = match SubscriberName::parse(value.name) {
            Ok(name) => name,
            Err(reason) => {
                return Err(reason);
            },
        };
        let email = match SubscriberEmail::parse(value.email) {
            Ok(email) => email,
            Err(reason) => {
                return Err(reason);
            },
        };
        Ok(NewSubscriber { email, name })
    }
}

/// The conversion is specified by the `ensures` of `try_from`, over what
/// the form and the subscriber stand for; the specification that goes by
/// the values themselves is not used.
impl TryFromSpecImpl<FormData> for NewSubscriber {
    open spec fn obeys_try_from_spec() -> bool {
        false
    }

    open spec fn try_from_spec(v: FormData) -> Result<NewSubscriber, String> {
        arbitrary()
    }
}

/// A failed sign-up.
#[derive(Debug, PartialEq, Eq)]
pub enum SubscribeError {
    /// The form is refused, for the reason given.
    ValidationError(String),
    /// The store or the email provider failed.
    UnexpectedError(Failure),
}

/// What a [`SubscribeError`] stands for.
pub enum SubscribeErrorView {
    ValidationError(Seq<char>),
    UnexpectedError(FailureView),
}

impl View for SubscribeError {
    type V = SubscribeErrorView;

    open spec fn view(&self) -> SubscribeErrorView {
        match self {
            SubscribeError::ValidationError(reason) => SubscribeErrorView::ValidationError(reason@),
            SubscribeError::UnexpectedError(failure) => SubscribeErrorView::UnexpectedError(
                failure@,
            ),
        }
    }
}

impl SubscribeErrorView {
    /// The status that the error is answered with.
    pub open spec fn status_code(self) -> u16 {
        match self {
            SubscribeErrorView::ValidationError(_) => UNPROCESSABLE_ENTITY,
            SubscribeErrorView::UnexpectedError(_) => INTERNAL_SERVER_ERROR,
        }
    }

    /// The error in words.
    pub open spec fn message(self) -> Seq<char> {
        match self {
            SubscribeErrorView::ValidationError(reason) => reason,
            SubscribeErrorView::UnexpectedError(failure) => failure.stage.context(),
        }
    }

    /// The answer to the request: a refused form is told the reason, an
    /// unexpected failure tells nothing of itself.
    pub open spec fn into_response(self) -> ResponseView {
        match self {
            SubscribeErrorView::ValidationError(reason) => ResponseView {
                status: UNPROCESSABLE_ENTITY,
                body: reason,
            },
            SubscribeErrorView::UnexpectedError(_) => ResponseView {
                status: INTERNAL_SERVER_ERROR,
                body: Seq::<char>::empty(),
            },
        }
    }
}

impl SubscribeError {
    /// The error in words: the reason why the form is refused, or what
    /// failed.
    pub fn to_string(&self) -> (message: String)
        ensures
            message@ == self@.message(),
    {
        match self {
            SubscribeError::ValidationError(reason) => reason.clone(),
            SubscribeError::UnexpectedError(failure) => String::from_str(failure.stage.describe()),
        }
    }

    /// The status that the error is answered with.
    pub fn status_code(&self) -> (status: u16)
        ensures
            status == self@.status_code(),
    {
        match self {
            SubscribeError::ValidationError(_) => UNPROCESSABLE_ENTITY,
            SubscribeError::UnexpectedError(_) => INTERNAL_SERVER_ERROR,
        }
    }

    /// The answer to the request.
    pub fn into_response(self) -> (response: Response)
        ensures
            response@ == self@.into_response(),
            response@.status == self@.status_code(),
    {
        match self {
            SubscribeError::ValidationError(reason) => Response {
                status: UNPROCESSABLE_ENTITY,
                body: reason,
            },
            SubscribeError::UnexpectedError(_) => Response::empty(INTERNAL_SERVER_ERROR),
        }
    }
}

/// The length of a confirmation token, in characters.
pub const TOKEN_LENGTH: usize = 25;

/// Whether `c` is one of the 62 ASCII letters and digits.
pub open spec fn is_alphanumeric(c: char) -> bool {
    let n = c as u32;
    ||| 0x30 <= n <= 0x39
    ||| 0x41 <= n <= 0x5A
    ||| 0x61 <= n <= 0x7A
}

/// Whether `s` has the shape of a confirmation token: [`TOKEN_LENGTH`]
/// ASCII letters and digits.
pub open spec fn is_subscription_token(s: Seq<char>) -> bool {
    &&& s.len() == TOKEN_LENGTH
    &&& forall|i: int| 0 <= i < s.len() ==> is_alphanumeric(#[trigger] s[i])
}

/// Draws `len` characters with `Alphanumeric.sample_string` from the
/// thread's random number generator, `rand::thread_rng()`. Trusted: the
/// string has `len` characters, each an ASCII letter or digit; nothing is
/// said of which.
#[verifier::external_body]
fn sample_alphanumeric(len: usize) -> (s: String)
    ensures
        s@.len() == len,
        forall|i: int| 0 <= i < s@.len() ==> is_alphanumeric(#[trigger] s@[i]),
{
    Alphanumeric.sample_string(&mut rand::thread_rng(), len)
}

/// A fresh confirmation token.
pub fn generate_subscription_token() -> (token: String)
    ensures
        is_subscription_token(token@),
{
    sample_alphanumeric(TOKEN_LENGTH)
}

/// The statement that stores `new_subscriber` under `subscriber_id`, pending
/// confirmation and subscribed at the time `subscribed_at`.
pub fn insert_subscriber(
    subscriber_id: SubscriberId,
    subscribed_at: i128,
    new_subscriber: &NewSubscriber,
) -> (statement: Statement)
    ensures
        statement@ == insertion(new_subscriber@, subscriber_id, subscribed_at),
{
    Statement::InsertSubscriber {
        id: subscriber_id,
        email: String::from_str(new_subscriber.email.as_ref()),
        name: String::from_str(new_subscriber.name.as_ref()),
        subscribed_at,
    }
}

/// The statement that stores `subscriber`.
pub open spec fn insertion(
    subscriber: NewSubscriberView,
    subscriber_id: SubscriberId,
    subscribed_at: i128,
) -> StatementView {
    StatementView::InsertSubscriber {
        id: subscriber_id,
        email: subscriber.email,
        name: subscriber.name,
        subscribed_at,
    }
}

/// The statement that binds `subscription_token` to its subscriber.
pub open spec fn binding(
    subscriber_id: SubscriberId,
    subscription_token: Seq<char>,
) -> StatementView {
    StatementView::StoreToken { subscription_token, subscriber_id }
}

/// The statement that binds `subscription_token` to the subscriber
/// `subscriber_id`.
pub fn store_token(subscriber_id: SubscriberId, subscription_token: &str) -> (statement: Statement)
    ensures
        statement@ == binding(subscriber_id, subscription_token@),
{
    Statement::StoreToken {
        subscription_token: String::from_str(subscription_token),
        subscriber_id,
    }
}

/// The link that confirms the subscription bound to `subscription_token`:
/// it leads to [`CONFIRM_PATH`] at `base_url`, with the token as the
/// parameter [`TOKEN_PARAMETER`].
pub open spec fn confirmation_link(base_url: Seq<char>, subscription_token: Seq<char>) -> Seq<
    char,
> {
    base_url + CONFIRM_PATH@ + "?"@ + TOKEN_PARAMETER@ + "="@ + subscription_token
}

/// The HTML body of the confirmation email.
pub open spec fn confirmation_html_body(link: Seq<char>) -> Seq<char> {
    "Welcome to our newsletter!<br />Click <a href=\""@ + link
        + "\">here</a> to confirm your subscription."@
}

/// The plain text body of the confirmation email.
pub open spec fn confirmation_text_body(link: Seq<char>) -> Seq<char> {
    "Welcome to our newsletter!\nVisit "@ + link + " to confirm your subscription."@
}

/// The request that sends `new_subscriber` the confirmation email.
pub open spec fn confirmation_email(
    email_client: EmailClientView,
    new_subscriber: NewSubscriberView,
    base_url: Seq<char>,
    subscription_token: Seq<char>,
) -> EmailRequestView {
    let link = confirmation_link(base_url, subscription_token);
    email_client.send_email(
        new_subscriber.email,
        "Welcome"@,
        confirmation_html_body(link),
        confirmation_text_body(link),
    )
}

/// The request that sends `new_subscriber` the confirmation email: a welcome
/// with the link that confirms the subscription, as HTML and as plain text.
pub fn send_confirmation_email(
    email_client: &EmailClient,
    new_subscriber: &NewSubscriber,
    base_url: &str,
    subscription_token: &str,
) -> (request: EmailRequest)
    ensures
        request@ == confirmation_email(
            email_client@,
            new_subscriber@,
            base_url@,
            subscription_token@,
        ),
{
    let mut confirmation_link = String::from_str(base_url);
    confirmation_link.append(CONFIRM_PATH);
    confirmation_link.append("?");
    confirmation_link.append(TOKEN_PARAMETER);
    confirmation_link.append("=");
    confirmation_link.append(subscription_token);

    let mut html_body = String::from_str("Welcome to our newsletter!<br />Click <a href=\"");
    html_body.append(confirmation_link.as_str());
    html_body.append("\">here</a> to confirm your subscription.");

    let mut text_body = String::from_str("Welcome to our newsletter!\nVisit ");
    text_body.append(confirmation_link.as_str());
    text_body.append(" to confirm your subscription.");

    email_client.send_email(
        &new_subscriber.email,
        "Welcome",
        html_body.as_str(),
        text_body.as_str(),
    )
}

/// Starts a sign-up from a submitted form: a refused form is answered at
/// once, a valid one opens a transaction.
pub fn subscribe(form: FormData) -> (r: (SubscribeWorkflow, SubscribeAction))
    ensures
        (r.0@, r.1@) == SubscribeWorkflowView::start(form@),
{
    match NewSubscriber::try_from(form) {
        Err(reason) => (
            SubscribeWorkflow::RejectedInvalid,
            SubscribeAction::Complete(Err(SubscribeError::ValidationError(reason))),
        ),
        Ok(subscriber) => (
            SubscribeWorkflow::Validated { subscriber },
            SubscribeAction::BeginTransaction,
        ),
    }
}

impl Clone for SubscribeError {
    fn clone(&self) -> (r: Self)
        ensures
            r@ == self@,
    {
        match self {
            SubscribeError::ValidationError(reason) => SubscribeError::ValidationError(
                reason.clone(),
            ),
            SubscribeError::UnexpectedError(failure) => SubscribeError::UnexpectedError(
                failure.clone(),
            ),
        }
    }
}

} // verus!

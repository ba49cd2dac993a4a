//! A newsletter subscription service, as the decisions it takes.
//!
//! A visitor signs up with a name and an email address. The service stores
//! the subscriber together with a fresh confirmation token, and then sends an
//! email with a link that carries the token. Following the link confirms the
//! subscription.
//!
//! Nothing in this crate touches a database or a network. Each request is a
//! state machine ([`routes::subscriptions::SubscribeWorkflow`],
//! [`routes::subscriptions_confirm::ConfirmWorkflow`]) that is told how the
//! last action went and answers with the next one: a statement for the
//! subscriber store ([`store::Statement`]), a request to the email provider
//! ([`email_client::EmailRequest`]), or the answer to the request. Whoever
//! runs the machine does what it asks for.
//!
//! What is proved:
//! - the rules for names and addresses ([`domain`]), exactly: which strings
//!   are accepted, and that an accepted string is kept as it is;
//! - what each step of a workflow answers, for every state and every event;
//! - that against a store that honours its transactions a sign-up stores the
//!   subscriber and the token together or not at all, sends no email before
//!   the commit, and does not undo the commit when the email fails
//!   ([`laws::subscribe`]);
//! - that a confirmation changes nothing but the status of the token's
//!   subscriber, and nothing at all for an unknown token ([`laws::confirm`]).
//!
//! What is trusted, each behind one function that is not public, with the
//! claim written above it: the count of grapheme clusters, the email
//! grammar, the decoding of form fields, the lower-casing of a name, the
//! random identifier and token, and the clock.

pub mod config;
pub mod domain;
pub mod email_client;
pub mod failure;
pub mod form;
pub mod http;
pub mod laws;
pub mod routes;
pub mod state;
pub mod store;
pub mod text;

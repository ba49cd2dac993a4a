//! What every request handler is given: built once, read by all.

use crate::config::Settings;
use crate::domain::subscriber_email::{invalid_email_message, is_valid_email};
use crate::email_client::{EmailClient, EmailClientView};
use vstd::prelude::*;

verus! {

/// The context of the request handlers.
pub struct State {
    pub email_client: EmailClient,
    /// The public address of this service, which confirmation links start
    /// with.
    pub base_url: String,
}

/// What a [`State`] stands for.
pub struct StateView {
    pub email_client: EmailClientView,
    pub base_url: Seq<char>,
}

impl View for State {
    type V = StateView;

    open spec fn view(&self) -> StateView {
        StateView { email_client: self.email_client@, base_url: self.base_url@ }
    }
}

/// The context that `config` describes.
pub open spec fn state_of(config: Settings) -> StateView {
    StateView {
        email_client: EmailClientView {
            base_url: config.email_client.base_url@,
            sender: config.email_client.sender_email@,
            authorization_token: config.email_client.authorization_token@,
            timeout_milliseconds: config.email_client.timeout_milliseconds,
        },
        base_url: config.application.base_url@,
    }
}

/// Builds the context of the request handlers from the settings, or says
/// why the sender's address is not valid.
pub fn build(config: Settings) -> (r: Result<State, String>)
    ensures
        match r {
            Ok(state) => is_valid_email(config.email_client.sender_email@) && state@ == state_of(
                config,
            ),
            Err(message) => !is_valid_email(config.email_client.sender_email@) && message@
                == invalid_email_message(config.email_client.sender_email@),
        },
{
    let sender = match config.email_client.sender() {
        Ok(sender) => sender,
        Err(message) => {
            return Err(message);
        },
    };
    let timeout = config.email_client.timeout();
    let email_client = EmailClient::new(
        config.email_client.base_url,
        sender,
        config.email_client.authorization_token,
        timeout,
    );
    Ok(State { email_client, base_url: config.application.base_url })
}

} // verus!

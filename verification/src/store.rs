//! The subscriber store as the workflows see it: the statements they send to
//! it, and a model of what each statement does to the two tables.

use vstd::prelude::*;

verus! {

/// The bits of a UUID that tell its variant and version.
pub const UUID_FIXED_BITS: u128 = 0x0000_0000_0000_F000_C000_0000_0000_0000;

/// The value of those bits in a random UUID: variant 1, version 4.
pub const UUID_RANDOM_BITS: u128 = 0x0000_0000_0000_4000_8000_0000_0000_0000;

/// Whether `value` is a UUID of variant 1 and version 4.
pub open spec fn is_random_uuid(value: u128) -> bool {
    value & UUID_FIXED_BITS == UUID_RANDOM_BITS
}

/// Draws a UUID with `uuid::Uuid::new_v4` and hands it out as the integer
/// that `Uuid::as_u128` gives. Trusted: the variant and version bits are those
/// of a random UUID; nothing is said of the other 122 bits.
#[verifier::external_body]
fn new_v4() -> (value: u128)
    ensures
        is_random_uuid(value),
{
    uuid::Uuid::new_v4().as_u128()
}

/// Reads the clock with `OffsetDateTime::now_utc` of the `time` crate, as
/// `sqlx` hands it on, and gives the time as
/// `OffsetDateTime::unix_timestamp_nanos` does: in nanoseconds since the Unix
/// epoch. Trusted: nothing is said of the time.
#[verifier::external_body]
pub(crate) fn now_utc() -> (nanoseconds: i128) {
    sqlx::types::time::OffsetDateTime::now_utc().unix_timestamp_nanos()
}

/// The identifier of a subscriber: a UUID, held as its 128 bits.
#[derive(Debug, Clone, Copy, PartialEq, Eq, Structural, Hash)]
pub struct SubscriberId {
    pub value: u128,
}

impl SubscriberId {
    /// A fresh random identifier.
    pub fn generate() -> (id: SubscriberId)
        ensures
            is_random_uuid(id.value),
    {
        SubscriberId { value: new_v4() }
    }
}

/// A statement for the subscriber store, with its parameters.
#[derive(Debug, PartialEq, Eq)]
pub enum Statement {
    /// Adds a subscriber, pending confirmation. `subscribed_at` is a time in
    /// nanoseconds since the Unix epoch.
    InsertSubscriber { id: SubscriberId, email: String, name: String, subscribed_at: i128 },
    /// Binds a confirmation token to a subscriber.
    StoreToken { subscription_token: String, subscriber_id: SubscriberId },
    /// Asks for the subscriber that a confirmation token is bound to.
    GetSubscriberIdFromToken { subscription_token: String },
    /// Marks a subscriber as confirmed.
    ConfirmSubscriber { subscriber_id: SubscriberId },
}

/// What a [`Statement`] stands for.
pub enum StatementView {
    InsertSubscriber { id: SubscriberId, email: Seq<char>, name: Seq<char>, subscribed_at: i128 },
    StoreToken { subscription_token: Seq<char>, subscriber_id: SubscriberId },
    GetSubscriberIdFromToken { subscription_token: Seq<char> },
    ConfirmSubscriber { subscriber_id: SubscriberId },
}

impl View for Statement {
    type V = StatementView;

    open spec fn view(&self) -> StatementView {
        match self {
            Statement::InsertSubscriber { id, email, name, subscribed_at } =>
                StatementView::InsertSubscriber {
                    id: *id,
                    email: email@,
                    name: name@,
                    subscribed_at: *subscribed_at,
                },
            Statement::StoreToken { subscription_token, subscriber_id } =>
                StatementView::StoreToken {
                    subscription_token: subscription_token@,
                    subscriber_id: *subscriber_id,
                },
            Statement::GetSubscriberIdFromToken { subscription_token } =>
                StatementView::GetSubscriberIdFromToken { subscription_token: subscription_token@ },
            Statement::ConfirmSubscriber { subscriber_id } => StatementView::ConfirmSubscriber {
                subscriber_id: *subscriber_id,
            },
        }
    }
}

impl StatementView {
    /// The SQL text of the statement. Its parameters `$1`, `$2`, .. are the
    /// fields of the statement in the order of their declaration.
    pub open spec fn sql(self) -> Seq<char> {
        match self {
            StatementView::InsertSubscriber { .. } =>
                "INSERT INTO subscription (id, email, name, subscribed_at, status) VALUES ($1, $2, $3, $4, 'pending_confirmation')"@,
            StatementView::StoreToken { .. } =>
                "INSERT INTO subscription_token (subscription_token, subscriber_id) VALUES ($1, $2)"@,
            StatementView::GetSubscriberIdFromToken { .. } =>
                "SELECT subscriber_id FROM subscription_token WHERE subscription_token = $1"@,
            StatementView::ConfirmSubscriber { .. } =>
                "UPDATE subscription SET status = 'confirmed' WHERE id = $1"@,
        }
    }
}

impl Statement {
    /// The SQL text of the statement.
    pub fn sql(&self) -> (r: &'static str)
        ensures
            r@ == self@.sql(),
    {
        match self {
            Statement::InsertSubscriber { .. } =>
                "INSERT INTO subscription (id, email, name, subscribed_at, status) VALUES ($1, $2, $3, $4, 'pending_confirmation')",
            Statement::StoreToken { .. } =>
                "INSERT INTO subscription_token (subscription_token, subscriber_id) VALUES ($1, $2)",
            Statement::GetSubscriberIdFromToken { .. } =>
                "SELECT subscriber_id FROM subscription_token WHERE subscription_token = $1",
            Statement::ConfirmSubscriber { .. } =>
                "UPDATE subscription SET status = 'confirmed' WHERE id = $1",
        }
    }
}

/// Whether a subscriber has confirmed the subscription.
#[derive(Debug, Clone, Copy, PartialEq, Eq, Structural)]
pub enum SubscriptionStatus {
    PendingConfirmation,
    Confirmed,
}

/// A row of the table `subscription`, without its key.
pub struct Subscription {
    pub email: Seq<char>,
    pub name: Seq<char>,
    pub subscribed_at: i128,
    pub status: SubscriptionStatus,
}

/// A model of the two tables of the store: `subscription`, keyed by the
/// subscriber's identifier, and `subscription_token`, keyed by the token.
pub struct Tables {
    pub subscription: Map<SubscriberId, Subscription>,
    pub subscription_token: Map<Seq<char>, SubscriberId>,
}

impl Tables {
    /// Whether every token is bound to a subscriber that is stored: the
    /// foreign key of `subscription_token`.
    pub open spec fn well_formed(self) -> bool {
        forall|token: Seq<char>| #[trigger]
            self.subscription_token.dom().contains(token) ==> self.subscription.dom().contains(
                self.subscription_token[token],
            )
    }

    /// Whether a subscriber is stored under `subscriber_id`.
    pub open spec fn has_subscriber(self, subscriber_id: SubscriberId) -> bool {
        self.subscription.dom().contains(subscriber_id)
    }

    /// The subscriber that `subscription_token` is bound to, if any.
    pub open spec fn subscriber_of(self, subscription_token: Seq<char>) -> Option<SubscriberId> {
        if self.subscription_token.dom().contains(subscription_token) {
            Some(self.subscription_token[subscription_token])
        } else {
            None
        }
    }

    /// Whether the tables take `statement` without breaking a key: a new
    /// subscriber's identifier is not in use, a new token is not in use and
    /// its subscriber is stored.
    pub open spec fn accepts(self, statement: StatementView) -> bool {
        match statement {
            StatementView::InsertSubscriber { id, .. } => !self.subscription.dom().contains(id),
            StatementView::StoreToken { subscription_token, subscriber_id } => {
                &&& !self.subscription_token.dom().contains(subscription_token)
                &&& self.subscription.dom().contains(subscriber_id)
            },
            StatementView::GetSubscriberIdFromToken { .. } => true,
            StatementView::ConfirmSubscriber { .. } => true,
        }
    }

    /// The tables after `statement`.
    pub open spec fn after(self, statement: StatementView) -> Tables {
        match statement {
            StatementView::InsertSubscriber { id, email, name, subscribed_at } => Tables {
                subscription: self.subscription.insert(
                    id,
                    Subscription {
                        email,
                        name,
                        subscribed_at,
                        status: SubscriptionStatus::PendingConfirmation,
                    },
                ),
                ..self
            },
            StatementView::StoreToken { subscription_token, subscriber_id } => Tables {
                subscription_token: self.subscription_token.insert(
                    subscription_token,
                    subscriber_id,
                ),
                ..self
            },
            StatementView::GetSubscriberIdFromToken { .. } => self,
            StatementView::ConfirmSubscriber { subscriber_id } => if self.has_subscriber(
                subscriber_id,
            ) {
                Tables {
                    subscription: self.subscription.insert(
                        subscriber_id,
                        Subscription {
                            status: SubscriptionStatus::Confirmed,
                            ..self.subscription[subscriber_id]
                        },
                    ),
                    ..self
                }
            } else {
                self
            },
        }
    }
}

/// A statement that the tables accept keeps the foreign key.
pub proof fn lemma_after_keeps_well_formed(tables: Tables, statement: StatementView)
    requires
        tables.well_formed(),
        tables.accepts(statement),
    ensures
        tables.after(statement).well_formed(),
{
    let after = tables.after(statement);
    assert forall|token: Seq<char>| #[trigger]
        after.subscription_token.dom().contains(token) implies after.subscription.dom().contains(
        after.subscription_token[token],
    ) by {
        if tables.subscription_token.dom().contains(token) {
            assert(tables.subscription.dom().contains(tables.subscription_token[token]));
        }
    }
}

/// Confirming a subscriber twice is confirming once.
pub proof fn lemma_confirm_is_idempotent(tables: Tables, subscriber_id: SubscriberId)
    ensures
        ({
            let confirm = StatementView::ConfirmSubscriber { subscriber_id };
            tables.after(confirm).after(confirm) == tables.after(confirm)
        }),
{
    let confirm = StatementView::ConfirmSubscriber { subscriber_id };
    let once = tables.after(confirm);
    let twice = once.after(confirm);
    assert(twice.subscription =~= once.subscription);
}

impl Clone for Statement {
    fn clone(&self) -> (r: Self)
        ensures
            r@ == self@,
    {
        match self {
            Statement::InsertSubscriber { id, email, name, subscribed_at } =>
                Statement::InsertSubscriber {
                    id: *id,
                    email: email.clone(),
                    name: name.clone(),
                    subscribed_at: *subscribed_at,
                },
            Statement::StoreToken { subscription_token, subscriber_id } => Statement::StoreToken {
                subscription_token: subscription_token.clone(),
                subscriber_id: *subscriber_id,
            },
            Statement::GetSubscriberIdFromToken { subscription_token } =>
                Statement::GetSubscriberIdFromToken {
                    subscription_token: subscription_token.clone(),
                },
            Statement::ConfirmSubscriber { subscriber_id } => Statement::ConfirmSubscriber {
                subscriber_id: *subscriber_id,
            },
        }
    }
}

} // verus!

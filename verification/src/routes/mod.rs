//! The request handlers, each as the decisions it takes.

pub mod health_check;
pub mod newsletter;
pub mod subscriptions;
pub mod subscriptions_confirm;

pub use health_check::health_check;
pub use newsletter::publish_newsletter;
pub use subscriptions::subscribe;
pub use subscriptions_confirm::confirm;

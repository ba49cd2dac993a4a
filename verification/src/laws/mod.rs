//! What holds of every run of a workflow against the subscriber store.

pub mod confirm;
pub mod subscribe;

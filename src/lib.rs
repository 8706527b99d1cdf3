//! Session orchestration core of a threshold secret-store node: typed session
//! registries, frozen-membership cluster views, the one-shot continuation of a
//! key-version negotiation, and the listener policy that turns finished
//! sessions into service notifications.

pub mod ids;
pub mod error;
pub mod view;
pub mod container;
pub mod continuation;
pub mod client;
pub mod listener;
pub mod router;

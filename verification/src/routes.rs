pub mod login;
pub mod newsletter;
pub mod subscriptions;

pub use subscriptions::{parse_subscriber, subscribe, FormData, StoreTokenError, SubscribeError};

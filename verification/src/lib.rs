//! A newsletter subscription service: validated subscriber data, a
//! confirmation-token workflow over a subscriber store, and an
//! authenticated newsletter broadcast.

pub mod configuration;
pub mod domain;
pub mod email_client;
pub mod newsletters;
pub mod store;
pub mod strutil;
pub mod subscriptions;
pub mod subscriptions_confirm;

use vstd::prelude::*;

verus! {

/// The base URL confirmation links are built against.
pub struct ApplicationBaseUrl(pub String);

} // verus!

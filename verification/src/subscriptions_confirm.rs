//! Confirmation redemption: resolve a confirmation token to a pending
//! subscriber and flip that subscriber's status to confirmed. Redemption is
//! idempotent: the same valid token can be redeemed again without effect.

use crate::store::{spec_redeem, spec_token_lookup, store_wf, SubscriberStore};
use vstd::prelude::*;

verus! {

/// The query parameters of a confirmation request.
pub struct Parameters {
    pub subscription_token: String,
}

/// Everything that can go wrong during confirmation.
#[derive(Debug)]
pub enum ConfirmError {
    /// The request carried no `subscription_token` query parameter.
    MissingToken,
    /// The token is not in the store.
    UnknownToken,
    /// The store itself failed.
    StorageError,
}

impl ConfirmError {
    /// A missing token is the caller's fault (400), an unknown one is not
    /// authorized (401), and a failing store is the server's fault (500).
    pub fn status_code(&self) -> (r: u16)
        ensures
            match self {
                ConfirmError::MissingToken => r == 400,
                ConfirmError::UnknownToken => r == 401,
                ConfirmError::StorageError => r == 500,
            },
    {
        match self {
            ConfirmError::MissingToken => 400,
            ConfirmError::UnknownToken => 401,
            ConfirmError::StorageError => 500,
        }
    }
}

/// Handle one confirmation request against the store.
///
/// Without a token the request is rejected before the store is touched; an
/// unknown token is rejected without effect; a known one confirms the
/// subscriber it points at.
pub fn confirm(store: &mut SubscriberStore, parameters: Option<Parameters>) -> (r: Result<
    (),
    ConfirmError,
>)
    ensures
        match parameters {
            None => r == Err::<(), ConfirmError>(ConfirmError::MissingToken) && final(store)@
                == old(store)@,
            Some(p) => {
                &&& final(store)@ == spec_redeem(old(store)@, p.subscription_token@)
                &&& match spec_token_lookup(old(store)@.tokens, p.subscription_token@) {
                    Some(_) => r == Ok::<(), ConfirmError>(()),
                    None => r == Err::<(), ConfirmError>(ConfirmError::UnknownToken),
                }
            },
        },
        store_wf(old(store)@) ==> store_wf(final(store)@),
{
    let parameters = match parameters {
        Some(p) => p,
        None => {
            return Err(ConfirmError::MissingToken);
        },
    };
    match store.redeem_token(parameters.subscription_token.as_str()) {
        Some(_) => Ok(()),
        None => Err(ConfirmError::UnknownToken),
    }
}

} // verus!

//! The subscription workflow: validate the request, insert the pending
//! subscriber and its fresh confirmation token as one atomic unit of work,
//! and build the confirmation email that carries the tokenized link.

use crate::domain::{valid_email, valid_subscriber_name, NewSubscriber, SubscriberData, SubscriberEmail};
use crate::email_client::{spec_email_request, EmailClient, EmailRequest};
use crate::store::{spec_insert, store_wf, SubscriberStore};
use rand::distributions::Alphanumeric;
use rand::{thread_rng, Rng};
use vstd::prelude::*;
use vstd::string::StringExecFns;

verus! {

/// A character a subscription token may consist of: ASCII alphanumeric.
pub open spec fn is_token_char(c: char) -> bool {
    ||| 'a' <= c <= 'z'
    ||| 'A' <= c <= 'Z'
    ||| '0' <= c <= '9'
}

/// A well-formed subscription token: 25 case-sensitive alphanumeric characters.
pub open spec fn valid_token(t: Seq<char>) -> bool {
    t.len() == 25 && forall|i: int| 0 <= i < t.len() ==> is_token_char(#[trigger] t[i])
}

/// Relies on rand's `Alphanumeric` distribution, which samples uniformly
/// from `a-z`, `A-Z` and `0-9`: 25 samples of it are 25 such characters.
/// The token is random, so nothing relates it to earlier or later ones.
#[verifier::external_body]
fn sample_token() -> (r: String)
    ensures
        valid_token(r@),
{
    thread_rng().sample_iter(Alphanumeric).map(char::from).take(25).collect()
}

/// Relies on `uuid::Uuid::new_v4`, a freshly generated random identifier;
/// nothing is promised of its value.
#[verifier::external_body]
fn new_subscriber_id() -> (r: u128) {
    uuid::Uuid::new_v4().as_u128()
}

/// Relies on `chrono::Utc::now`, the wall clock in UTC as seconds since the
/// epoch; nothing is promised of its value.
#[verifier::external_body]
fn utc_now_timestamp() -> (r: i64) {
    chrono::Utc::now().timestamp()
}

/// A fresh confirmation token: 25 random alphanumeric characters.
pub fn generate_subscription_token() -> (r: String)
    ensures
        valid_token(r@),
{
    sample_token()
}

/// The confirmation link embedded in the welcome email.
pub open spec fn spec_confirmation_link(base_url: Seq<char>, token: Seq<char>) -> Seq<char> {
    base_url + "/subscriptions/confirm?subscription_token="@ + token
}

/// The HTML body of the welcome email.
pub open spec fn spec_confirmation_html(link: Seq<char>) -> Seq<char> {
    "Welcome to our newsletter!<br />Click <a href=\""@ + link
        + "\">here</a> to confirm your subscription."@
}

/// The plain-text body of the welcome email.
pub open spec fn spec_confirmation_text(link: Seq<char>) -> Seq<char> {
    "Welcome to our newsletter!\nVisit "@ + link + " to confirm your subscription."@
}

/// `{base_url}/subscriptions/confirm?subscription_token={token}`.
pub fn confirmation_link(base_url: &str, subscription_token: &str) -> (r: String)
    ensures
        r@ == spec_confirmation_link(base_url@, subscription_token@),
{
    let mut s = String::from_str(base_url);
    s.append("/subscriptions/confirm?subscription_token=");
    s.append(subscription_token);
    proof {
        assert(s@ =~= spec_confirmation_link(base_url@, subscription_token@));
    }
    s
}

/// Build the welcome email for a new subscriber: subject `Welcome!`, and an
/// HTML and a plain-text body that both carry the confirmation link.
pub fn send_confirmation_email(
    email_client: &EmailClient,
    new_subscriber: &SubscriberEmail,
    base_url: &str,
    subscription_token: &str,
) -> (r: EmailRequest)
    ensures
        r@ == spec_email_request(
            email_client@,
            new_subscriber@,
            "Welcome!"@,
            spec_confirmation_text(spec_confirmation_link(base_url@, subscription_token@)),
            spec_confirmation_html(spec_confirmation_link(base_url@, subscription_token@)),
        ),
{
    let link = confirmation_link(base_url, subscription_token);

    let mut html_body = String::from_str("Welcome to our newsletter!<br />Click <a href=\"");
    html_body.append(link.as_str());
    html_body.append("\">here</a> to confirm your subscription.");

    let mut plain_text_body = String::from_str("Welcome to our newsletter!\nVisit ");
    plain_text_body.append(link.as_str());
    plain_text_body.append(" to confirm your subscription.");

    proof {
        assert(html_body@ =~= spec_confirmation_html(link@));
        assert(plain_text_body@ =~= spec_confirmation_text(link@));
    }
    email_client.email_request(new_subscriber, "Welcome!", plain_text_body.as_str(), html_body.as_str())
}

/// An error report: the error's own description, then each cause in its
/// chain, outermost first.
pub open spec fn spec_error_chain(e: Seq<char>, causes: Seq<Seq<char>>) -> Seq<char>
    decreases causes.len(),
{
    if causes.len() == 0 {
        e + "\n\n"@
    } else {
        spec_error_chain(e, causes.drop_last()) + "Caused by:\n\t"@ + causes.last() + "\n"@
    }
}

/// Render the entire chain of an error: its own description, then each
/// cause, one per line.
pub fn error_chain_fmt(e: &str, causes: &Vec<String>) -> (r: String)
    ensures
        r@ == spec_error_chain(e@, causes.deep_view()),
{
    let mut out = String::from_str(e);
    out.append("\n\n");
    let n = causes.len();
    let mut i: usize = 0;
    while i < n
        invariant
            n == causes@.len(),
            i <= n,
            out@ == spec_error_chain(e@, causes.deep_view().take(i as int)),
        decreases n - i,
    {
        proof {
            assert(causes.deep_view().take(i + 1).drop_last() =~= causes.deep_view().take(
                i as int,
            ));
            assert(causes.deep_view().take(i + 1).last() == causes.deep_view()[i as int]);
        }
        out.append("Caused by:\n\t");
        out.append(causes[i].as_str());
        out.append("\n");
        i += 1;
    }
    proof {
        assert(causes.deep_view().take(n as int) =~= causes.deep_view());
        assert(out@ =~= spec_error_chain(e@, causes.deep_view()));
    }
    out
}

/// Everything that can go wrong during subscription.
#[derive(Debug)]
pub enum SubscribeError {
    ValidationError(String),
    StoreTokenError,
    SendEmailError,
    PoolError,
    InsertSubscriberError,
    TransactionCommitError,
}

impl SubscribeError {
    /// Invalid input is the caller's fault; everything else is the server's.
    pub fn status_code(&self) -> (r: u16)
        ensures
            match self {
                SubscribeError::ValidationError(_) => r == 400,
                _ => r == 500,
            },
    {
        match self {
            SubscribeError::ValidationError(_) => 400,
            _ => 500,
        }
    }

    /// The human-readable description of the error.
    pub fn message(&self) -> (r: String)
        ensures
            match self {
                SubscribeError::ValidationError(e) => r@ == e@,
                SubscribeError::StoreTokenError => r@
                    == "Failed to store the confirmation token for a new subscriber."@,
                SubscribeError::SendEmailError => r@ == "Failed to send a confirmation email."@,
                SubscribeError::PoolError => r@
                    == "Failed to acquire a Postgres connection from the pool."@,
                SubscribeError::InsertSubscriberError => r@
                    == "Failed to insert a new subscriber in the database."@,
                SubscribeError::TransactionCommitError => r@
                    == "Failed to commit SQL transaction to store a new subscriber."@,
            },
    {
        match self {
            SubscribeError::ValidationError(e) => String::from_str(e.as_str()),
            SubscribeError::StoreTokenError => String::from_str(
                "Failed to store the confirmation token for a new subscriber.",
            ),
            SubscribeError::SendEmailError => String::from_str(
                "Failed to send a confirmation email.",
            ),
            SubscribeError::PoolError => String::from_str(
                "Failed to acquire a Postgres connection from the pool.",
            ),
            SubscribeError::InsertSubscriberError => String::from_str(
                "Failed to insert a new subscriber in the database.",
            ),
            SubscribeError::TransactionCommitError => String::from_str(
                "Failed to commit SQL transaction to store a new subscriber.",
            ),
        }
    }
}

/// Handle one subscription request against the store.
///
/// Invalid input is rejected before the store is touched. Otherwise a fresh
/// subscriber row (status pending) and its fresh token row are inserted as
/// one atomic unit, and the welcome email carrying the tokenized
/// confirmation link is returned for dispatch.
pub fn subscribe(
    store: &mut SubscriberStore,
    email_client: &EmailClient,
    base_url: &str,
    form: SubscriberData,
) -> (r: Result<EmailRequest, SubscribeError>)
    ensures
        match r {
            Err(SubscribeError::ValidationError(e)) => {
                &&& !(valid_subscriber_name(form.name@) && valid_email(form.email@))
                &&& if !valid_subscriber_name(form.name@) {
                    e@ == form.name@ + " is not a valid subscriber name."@
                } else {
                    e@ == form.email@ + " is not a valid subscriber email."@
                }
                &&& final(store)@ == old(store)@
            },
            Err(_) => false,
            Ok(req) => {
                &&& valid_subscriber_name(form.name@)
                &&& valid_email(form.email@)
                &&& final(store)@ == spec_insert(
                    old(store)@,
                    final(store)@.subscribers.last(),
                    final(store)@.tokens.last(),
                )
                &&& ({
                    let row = final(store)@.subscribers.last();
                    let tok = final(store)@.tokens.last();
                    &&& row.email == form.email@
                    &&& row.name == form.name@
                    &&& row.status is PendingConfirmation
                    &&& tok.subscriber_id == row.id
                    &&& valid_token(tok.token)
                    &&& req@ == spec_email_request(
                        email_client@,
                        form.email@,
                        "Welcome!"@,
                        spec_confirmation_text(spec_confirmation_link(base_url@, tok.token)),
                        spec_confirmation_html(spec_confirmation_link(base_url@, tok.token)),
                    )
                })
                &&& (store_wf(old(store)@) ==> store_wf(final(store)@))
            },
        },
{
    let new_subscriber = match NewSubscriber::try_from(form) {
        Ok(ns) => ns,
        Err(e) => {
            return Err(SubscribeError::ValidationError(e));
        },
    };
    let subscriber_id = new_subscriber_id();
    let subscribed_at = utc_now_timestamp();
    let subscription_token = generate_subscription_token();
    store.insert_pending(
        subscriber_id,
        &new_subscriber.email,
        &new_subscriber.name,
        subscribed_at,
        subscription_token.as_str(),
    );
    let req = send_confirmation_email(
        email_client,
        &new_subscriber.email,
        base_url,
        subscription_token.as_str(),
    );
    Ok(req)
}

} // verus!

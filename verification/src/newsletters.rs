//! The newsletter broadcast: authenticate the publisher with HTTP Basic
//! credentials against a stored Argon2 password hash, then build one outbound
//! email per confirmed subscriber.

use crate::domain::{valid_email, SubscriberEmail};
use crate::email_client::{spec_email_request, EmailClient, EmailRequest, EmailRequestModel, EmailClientModel};
use crate::store::{spec_confirmed_emails, SubscriberStore};
use crate::strutil::{chars_of, find_char, spec_find_char, str_starts_with};
use vstd::prelude::*;
use vstd::string::{StrSliceExecFns, StringExecFns};
use vstd::utf8::{decode_utf8, valid_utf8};

verus! {

/// The JSON body of a publish request.
pub struct BodyData {
    pub title: String,
    pub content: Content,
}

/// The two renderings of one newsletter issue.
pub struct Content {
    pub html: String,
    pub text: String,
}

/// The username and password of a publish request.
#[derive(Debug)]
pub struct Credentials {
    pub username: String,
    pub password: String,
}

/// A row of the `users` table.
pub struct StoredCredentials {
    pub user_id: u128,
    pub password_hash: String,
}

/// What `base64::decode` returns for `s`: the decoded bytes, or nothing
/// where `s` is not valid base64.
pub uninterp spec fn base64_decoding(s: Seq<char>) -> Option<Seq<u8>>;

/// Relies on `base64::decode` (standard alphabet, with padding): a
/// deterministic function of its input that fails exactly on invalid input.
#[verifier::external_body]
fn base64_decode(s: &str) -> (r: Option<Vec<u8>>)
    ensures
        match r {
            Some(v) => base64_decoding(s@) == Some(v@),
            None => base64_decoding(s@) is None,
        },
{
    match base64::decode(s) {
        Ok(v) => Some(v),
        Err(_) => None,
    }
}

/// Relies on `String::from_utf8` of std: succeeds exactly on valid UTF-8,
/// returning the characters the bytes encode.
#[verifier::external_body]
fn bytes_to_string(v: Vec<u8>) -> (r: Option<String>)
    ensures
        match r {
            Some(s) => valid_utf8(v@) && s@ == decode_utf8(v@),
            None => !valid_utf8(v@),
        },
{
    match String::from_utf8(v) {
        Ok(s) => Some(s),
        Err(_) => None,
    }
}

/// Split `user:password` at the first colon; nothing without a colon.
pub open spec fn spec_split_credentials(s: Seq<char>) -> Option<(Seq<char>, Seq<char>)> {
    match spec_find_char(s, ':') {
        Some(i) => Some((s.take(i), s.skip(i + 1))),
        None => None,
    }
}

/// What decoding an `Authorization` header yields: the username and password,
/// or the message describing why the header is rejected.
pub open spec fn spec_basic_authentication(header: Option<Seq<char>>) -> Result<
    (Seq<char>, Seq<char>),
    Seq<char>,
> {
    match header {
        None => Err("The 'Authorization' header is missing."@),
        Some(h) => if !(h.len() >= 6 && h.take(6) == "Basic "@) {
            Err("The authentication scheme is not 'Basic'."@)
        } else {
            match base64_decoding(h.skip(6)) {
                None => Err("Failed to base64-decode 'Basic' credentials."@),
                Some(bytes) => if !valid_utf8(bytes) {
                    Err("The decoded credential string is not valid UTF-8."@)
                } else {
                    match spec_split_credentials(decode_utf8(bytes)) {
                        None => Err("A password must be provided in 'Basic' auth."@),
                        Some((u, p)) => Ok((u, p)),
                    }
                },
            }
        },
    }
}

/// Extract the publisher's credentials from the `Authorization` header:
/// `Basic `, then the base64 of `user:password`.
pub fn basic_authentication(header: Option<&str>) -> (r: Result<Credentials, String>)
    ensures
        ({
            let hv = match header {
                Some(h) => Some(h@),
                None => None::<Seq<char>>,
            };
            match r {
                Ok(c) => spec_basic_authentication(hv) == Ok::<_, Seq<char>>(
                    (c.username@, c.password@),
                ),
                Err(e) => spec_basic_authentication(hv) == Err::<(Seq<char>, Seq<char>), _>(e@),
            }
        }),
{
    proof {
        reveal_strlit("Basic ");
    }
    let header_value = match header {
        Some(h) => h,
        None => {
            return Err(String::from_str("The 'Authorization' header is missing."));
        },
    };
    if !str_starts_with(header_value, "Basic ") {
        return Err(String::from_str("The authentication scheme is not 'Basic'."));
    }
    let base64encoded_segment = header_value.substring_char(6, header_value.unicode_len());
    proof {
        assert(base64encoded_segment@ =~= header_value@.skip(6));
    }
    let decoded_bytes = match base64_decode(base64encoded_segment) {
        Some(b) => b,
        None => {
            return Err(String::from_str("Failed to base64-decode 'Basic' credentials."));
        },
    };
    let decoded_credentials = match bytes_to_string(decoded_bytes) {
        Some(s) => s,
        None => {
            return Err(String::from_str("The decoded credential string is not valid UTF-8."));
        },
    };
    let decoded = decoded_credentials.as_str();
    let chars = chars_of(decoded);
    match find_char(&chars, ':') {
        None => Err(String::from_str("A password must be provided in 'Basic' auth.")),
        Some(i) => {
            let len = decoded.unicode_len();
            let username = String::from_str(decoded.substring_char(0, i));
            let password = String::from_str(decoded.substring_char(i + 1, len));
            proof {
                assert(username@ =~= decoded@.take(i as int));
                assert(password@ =~= decoded@.skip(i + 1));
            }
            Ok(Credentials { username, password })
        },
    }
}

/// Whether `argon2::PasswordHash::new` accepts `phc` as a PHC-format hash
/// string: a deterministic function of the string.
pub uninterp spec fn phc_is_valid(phc: Seq<char>) -> bool;

/// Whether Argon2 verification of `password` against the PHC hash string
/// `phc` succeeds: deterministic, as verification recomputes the hash with
/// the parameters and salt of `phc` and compares.
pub uninterp spec fn password_matches(phc: Seq<char>, password: Seq<char>) -> bool;

/// How a password candidate fares against a stored PHC hash string.
pub enum PasswordCheck {
    Match,
    Mismatch,
    InvalidHash,
}

/// Relies on `argon2::PasswordHash::new`, which parses the PHC string, and
/// `Argon2::default().verify_password`, which recomputes the hash over the
/// candidate with the parsed salt and parameters and compares the outputs;
/// both are deterministic functions of the two strings.
#[verifier::external_body]
fn verify_password_phc(phc: &str, candidate: &str) -> (r: PasswordCheck)
    ensures
        (r is InvalidHash) == !phc_is_valid(phc@),
        phc_is_valid(phc@) ==> ((r is Match) == password_matches(phc@, candidate@)),
{
    let parsed = match argon2::PasswordHash::new(phc) {
        Ok(parsed) => parsed,
        Err(_) => {
            return PasswordCheck::InvalidHash;
        },
    };
    match argon2::PasswordVerifier::verify_password(
        &argon2::Argon2::default(),
        candidate.as_bytes(),
        &parsed,
    ) {
        Ok(()) => PasswordCheck::Match,
        Err(_) => PasswordCheck::Mismatch,
    }
}

/// Everything that can go wrong during publishing.
#[derive(Debug)]
pub enum PublishError {
    AuthError(String),
    UnexpectedError(String),
}

/// An HTTP error response: the status and, for authentication failures, the
/// challenge header.
pub struct ErrorResponse {
    pub status_code: u16,
    pub www_authenticate: Option<String>,
}

impl PublishError {
    /// The human-readable description of the error.
    pub fn message(&self) -> (r: String)
        ensures
            match self {
                PublishError::AuthError(_) => r@ == "Authentication failed."@,
                PublishError::UnexpectedError(e) => r@ == e@,
            },
    {
        match self {
            PublishError::AuthError(_) => String::from_str("Authentication failed."),
            PublishError::UnexpectedError(e) => String::from_str(e.as_str()),
        }
    }

    /// An authentication failure is 401 and challenges the caller with
    /// `WWW-Authenticate: Basic realm="publish"`; anything else is 500.
    pub fn error_response(&self) -> (r: ErrorResponse)
        ensures
            match self {
                PublishError::UnexpectedError(_) => r.status_code == 500 && r.www_authenticate
                    is None,
                PublishError::AuthError(_) => r.status_code == 401 && (match r.www_authenticate {
                    Some(h) => h@ == "Basic realm=\"publish\""@,
                    None => false,
                }),
            },
    {
        match self {
            PublishError::UnexpectedError(_) => ErrorResponse {
                status_code: 500,
                www_authenticate: None,
            },
            PublishError::AuthError(_) => ErrorResponse {
                status_code: 401,
                www_authenticate: Some(String::from_str("Basic realm=\"publish\"")),
            },
        }
    }
}

/// Check a password candidate against a stored PHC hash string: an unusable
/// hash is the server's fault, a mismatch is an authentication failure.
pub fn verify_password_hash(
    expected_password_hash_phc: String,
    password_candidate: String,
) -> (r: Result<(), PublishError>)
    ensures
        match r {
            Ok(_) => phc_is_valid(expected_password_hash_phc@) && password_matches(
                expected_password_hash_phc@,
                password_candidate@,
            ),
            Err(PublishError::UnexpectedError(e)) => !phc_is_valid(expected_password_hash_phc@)
                && e@ == "Failed to parse hash in PHC string format"@,
            Err(PublishError::AuthError(e)) => phc_is_valid(expected_password_hash_phc@)
                && !password_matches(expected_password_hash_phc@, password_candidate@) && e@
                == "Invalid password"@,
        },
{
    match verify_password_phc(expected_password_hash_phc.as_str(), password_candidate.as_str()) {
        PasswordCheck::InvalidHash => Err(
            PublishError::UnexpectedError(
                String::from_str("Failed to parse hash in PHC string format"),
            ),
        ),
        PasswordCheck::Match => Ok(()),
        PasswordCheck::Mismatch => Err(
            PublishError::AuthError(String::from_str("Invalid password")),
        ),
    }
}

/// Decide a publish request's authentication from the stored credential row
/// of the claimed username (or its absence) and the candidate password. An
/// unknown username fails exactly like a wrong password, so callers cannot
/// probe which usernames exist.
pub fn validate_credentials(
    stored: Option<StoredCredentials>,
    credentials: &Credentials,
) -> (r: Result<u128, PublishError>)
    ensures
        match stored {
            None => (match r {
                Err(PublishError::AuthError(e)) => e@ == "Unknown username."@,
                _ => false,
            }),
            Some(sc) => match r {
                Ok(user_id) => user_id == sc.user_id && phc_is_valid(sc.password_hash@)
                    && password_matches(sc.password_hash@, credentials.password@),
                Err(PublishError::UnexpectedError(e)) => !phc_is_valid(sc.password_hash@) && e@
                    == "Failed to parse hash in PHC string format"@,
                Err(PublishError::AuthError(e)) => phc_is_valid(sc.password_hash@)
                    && !password_matches(sc.password_hash@, credentials.password@) && e@
                    == "Invalid password"@,
            },
        },
{
    let sc = match stored {
        Some(sc) => sc,
        None => {
            return Err(PublishError::AuthError(String::from_str("Unknown username.")));
        },
    };
    let user_id = sc.user_id;
    match verify_password_hash(sc.password_hash, String::from_str(credentials.password.as_str())) {
        Ok(_) => Ok(user_id),
        Err(e) => Err(e),
    }
}

/// The confirmed subscribers' stored emails, each parsed back into a
/// validated address; a row whose email no longer parses is kept as the
/// error to be logged, not dropped silently.
pub fn get_confirmed_subscribers(store: &SubscriberStore) -> (r: Vec<
    Result<SubscriberEmail, String>,
>)
    ensures
        ({
            let emails = spec_confirmed_emails(store@.subscribers);
            &&& r@.len() == emails.len()
            &&& forall|i: int|
                0 <= i < emails.len() ==> match #[trigger] r@[i] {
                    Ok(se) => valid_email(emails[i]) && se@ == emails[i],
                    Err(e) => !valid_email(emails[i]) && e@ == emails[i]
                        + " is not a valid subscriber email."@,
                }
        }),
{
    let emails = store.confirmed_emails();
    let mut out: Vec<Result<SubscriberEmail, String>> = Vec::new();
    let n = emails.len();
    let mut i: usize = 0;
    while i < n
        invariant
            n == emails@.len(),
            i <= n,
            emails.deep_view() == spec_confirmed_emails(store@.subscribers),
            out@.len() == i,
            forall|j: int|
                0 <= j < i ==> match #[trigger] out@[j] {
                    Ok(se) => valid_email(emails.deep_view()[j]) && se@ == emails.deep_view()[j],
                    Err(e) => !valid_email(emails.deep_view()[j]) && e@ == emails.deep_view()[j]
                        + " is not a valid subscriber email."@,
                },
        decreases n - i,
    {
        let raw = emails[i].clone();
        match SubscriberEmail::parse(raw) {
            Ok(se) => out.push(Ok(se)),
            Err(e) => out.push(Err(e)),
        }
        i += 1;
    }
    out
}

/// The outbound emails of one broadcast: one per confirmed subscriber whose
/// stored address still parses, each carrying the issue's title and bodies.
pub open spec fn spec_broadcast(
    c: EmailClientModel,
    emails: Seq<Seq<char>>,
    title: Seq<char>,
    text: Seq<char>,
    html: Seq<char>,
) -> Seq<EmailRequestModel>
    decreases emails.len(),
{
    if emails.len() == 0 {
        Seq::empty()
    } else {
        let rest = spec_broadcast(c, emails.drop_last(), title, text, html);
        if valid_email(emails.last()) {
            rest.push(spec_email_request(c, emails.last(), title, text, html))
        } else {
            rest
        }
    }
}

/// Plan one newsletter broadcast: one email request per confirmed subscriber
/// with a parsable stored address, in store order; a row with an unparsable
/// address is skipped. The caller dispatches the requests and aborts the
/// broadcast on the first send failure.
pub fn publish_newsletter(
    store: &SubscriberStore,
    email_client: &EmailClient,
    body: &BodyData,
) -> (r: Vec<EmailRequest>)
    ensures
        r.deep_view() == spec_broadcast(
            email_client@,
            spec_confirmed_emails(store@.subscribers),
            body.title@,
            body.content.text@,
            body.content.html@,
        ),
{
    let subscribers = get_confirmed_subscribers(store);
    let ghost emails = spec_confirmed_emails(store@.subscribers);
    let mut out: Vec<EmailRequest> = Vec::new();
    let n = subscribers.len();
    let mut i: usize = 0;
    while i < n
        invariant
            n == subscribers@.len(),
            n == emails.len(),
            i <= n,
            forall|j: int|
                0 <= j < n ==> match #[trigger] subscribers@[j] {
                    Ok(se) => valid_email(emails[j]) && se@ == emails[j],
                    Err(e) => !valid_email(emails[j]),
                },
            out.deep_view() == spec_broadcast(
                email_client@,
                emails.take(i as int),
                body.title@,
                body.content.text@,
                body.content.html@,
            ),
        decreases n - i,
    {
        proof {
            assert(emails.take(i + 1).drop_last() =~= emails.take(i as int));
            assert(emails.take(i + 1).last() == emails[i as int]);
        }
        let ghost pre = out.deep_view();
        match &subscribers[i] {
            Ok(se) => {
                let req = email_client.email_request(
                    se,
                    body.title.as_str(),
                    body.content.text.as_str(),
                    body.content.html.as_str(),
                );
                out.push(req);
                proof {
                    assert(out.deep_view() =~= pre.push(
                        spec_email_request(
                            email_client@,
                            emails[i as int],
                            body.title@,
                            body.content.text@,
                            body.content.html@,
                        ),
                    ));
                }
            },
            Err(_) => {},
        }
        i += 1;
    }
    proof {
        assert(emails.take(n as int) =~= emails);
    }
    out
}

/// With every stored address parsable, a broadcast sends exactly one email
/// to each confirmed subscriber, in order, with the issue's title and bodies.
pub proof fn lemma_broadcast_one_request_per_confirmed(
    c: EmailClientModel,
    emails: Seq<Seq<char>>,
    title: Seq<char>,
    text: Seq<char>,
    html: Seq<char>,
)
    requires
        forall|i: int| 0 <= i < emails.len() ==> valid_email(#[trigger] emails[i]),
    ensures
        spec_broadcast(c, emails, title, text, html).len() == emails.len(),
        forall|i: int|
            0 <= i < emails.len() ==> #[trigger] spec_broadcast(c, emails, title, text, html)[i]
                == spec_email_request(c, emails[i], title, text, html),
    decreases emails.len(),
{
    if emails.len() > 0 {
        lemma_broadcast_one_request_per_confirmed(c, emails.drop_last(), title, text, html);
    }
}

} // verus!

//! The email transport client's data: which endpoint to call, with what
//! authorization, and the exact request payload for one transactional email.
//! Performing the HTTP POST itself is left to the surrounding program.

use crate::domain::SubscriberEmail;
use vstd::prelude::*;
use vstd::string::StringExecFns;

verus! {

/// One outbound transactional email, ready to be POSTed to the transport.
#[derive(Debug)]
pub struct EmailRequest {
    pub url: String,
    pub authorization_token: String,
    pub from: String,
    pub to: String,
    pub subject: String,
    pub text_body: String,
    pub html_body: String,
    pub timeout_millis: u64,
}

/// The mathematical value of an outbound email request.
#[verifier::ext_equal]
pub struct EmailRequestModel {
    pub url: Seq<char>,
    pub authorization_token: Seq<char>,
    pub from: Seq<char>,
    pub to: Seq<char>,
    pub subject: Seq<char>,
    pub text_body: Seq<char>,
    pub html_body: Seq<char>,
    pub timeout_millis: u64,
}

impl View for EmailRequest {
    type V = EmailRequestModel;

    open spec fn view(&self) -> EmailRequestModel {
        EmailRequestModel {
            url: self.url@,
            authorization_token: self.authorization_token@,
            from: self.from@,
            to: self.to@,
            subject: self.subject@,
            text_body: self.text_body@,
            html_body: self.html_body@,
            timeout_millis: self.timeout_millis,
        }
    }
}

impl DeepView for EmailRequest {
    type V = EmailRequestModel;

    open spec fn deep_view(&self) -> EmailRequestModel {
        self.view()
    }
}

/// The mathematical value of an email client.
#[verifier::ext_equal]
pub struct EmailClientModel {
    pub base_url: Seq<char>,
    pub sender: Seq<char>,
    pub authorization_token: Seq<char>,
    pub timeout_millis: u64,
}

/// The email transport client: base URL, authenticated sender, and the
/// bounded send timeout.
pub struct EmailClient {
    base_url: String,
    sender: SubscriberEmail,
    authorization_token: String,
    timeout_millis: u64,
}

impl View for EmailClient {
    type V = EmailClientModel;

    closed spec fn view(&self) -> EmailClientModel {
        EmailClientModel {
            base_url: self.base_url@,
            sender: self.sender@,
            authorization_token: self.authorization_token@,
            timeout_millis: self.timeout_millis,
        }
    }
}

/// The request a client `c` makes to send one email.
pub open spec fn spec_email_request(
    c: EmailClientModel,
    to: Seq<char>,
    subject: Seq<char>,
    text_body: Seq<char>,
    html_body: Seq<char>,
) -> EmailRequestModel {
    EmailRequestModel {
        url: c.base_url + "/email"@,
        authorization_token: c.authorization_token,
        from: c.sender,
        to,
        subject,
        text_body,
        html_body,
        timeout_millis: c.timeout_millis,
    }
}

impl EmailClient {
    /// A client that POSTs to `{base_url}/email` as `sender`, authorized by
    /// `authorization_token`, giving each send `timeout_millis` to finish.
    pub fn new(
        base_url: String,
        sender: SubscriberEmail,
        authorization_token: String,
        timeout_millis: u64,
    ) -> (r: EmailClient)
        ensures
            r@ == (EmailClientModel {
                base_url: base_url@,
                sender: sender@,
                authorization_token: authorization_token@,
                timeout_millis,
            }),
    {
        EmailClient { base_url, sender, authorization_token, timeout_millis }
    }

    /// The exact request that sends one email to `to`.
    pub fn email_request(
        &self,
        to: &SubscriberEmail,
        subject: &str,
        text_body: &str,
        html_body: &str,
    ) -> (r: EmailRequest)
        ensures
            r@ == spec_email_request(self@, to@, subject@, text_body@, html_body@),
    {
        let mut url = String::from_str(self.base_url.as_str());
        url.append("/email");
        let r = EmailRequest {
            url,
            authorization_token: String::from_str(self.authorization_token.as_str()),
            from: self.sender.as_string(),
            to: to.as_string(),
            subject: String::from_str(subject),
            text_body: String::from_str(text_body),
            html_body: String::from_str(html_body),
            timeout_millis: self.timeout_millis,
        };
        proof {
            assert(r@ =~~= spec_email_request(self@, to@, subject@, text_body@, html_body@));
        }
        r
    }
}

} // verus!

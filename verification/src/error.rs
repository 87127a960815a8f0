//! The errors of the webhook and of header reading.

use vstd::prelude::*;

verus! {

/// Why an EventSub request was refused.
#[derive(Debug)]
pub enum Webhook {
    /// The signature header does not match the message.
    CannotVerifyMessage,
    /// The body is not one of the EventSub message shapes; holds the JSON
    /// decoder's error, as its debug text.
    CannotParseBody(String),
}

/// The text that answers a webhook error: its debug form.
pub open spec fn webhook_message(e: Webhook) -> Seq<char> {
    match e {
        Webhook::CannotVerifyMessage => "CannotVerifyMessage"@,
        Webhook::CannotParseBody(detail) => "CannotParseBody("@ + detail@ + ")"@,
    }
}

/// The HTTP status code that answers a webhook error.
pub open spec fn webhook_code(e: Webhook) -> u16 {
    match e {
        Webhook::CannotVerifyMessage => 403u16,
        Webhook::CannotParseBody(_) => 500u16,
    }
}

impl Webhook {
    /// The HTTP status code that answers this error.
    pub fn code(&self) -> (code: u16)
        ensures
            code == webhook_code(*self),
    {
        match self {
            Webhook::CannotVerifyMessage => 403,
            Webhook::CannotParseBody(_) => 500,
        }
    }

    /// The text that answers this error: the variant's name, with the
    /// decoder's error in brackets when there is one.
    pub fn message(&self) -> (text: String)
        ensures
            text@ == webhook_message(*self),
    {
        match self {
            Webhook::CannotVerifyMessage => String::from_str("CannotVerifyMessage"),
            Webhook::CannotParseBody(detail) => {
                let mut text = String::from_str("CannotParseBody(");
                text.append(detail.as_str());
                text.append(")");
                text
            },
        }
    }
}

/// Why an EventSub header set could not be read.
#[derive(Debug, Clone, Copy, PartialEq, Eq, Structural)]
pub enum HeaderError {
    /// A required header is absent.
    MissingHeader,
    /// The message type header names no known message type.
    UnknownMessageType,
}

impl HeaderError {
    /// The text that answers this error.
    pub fn message(&self) -> (text: String)
        ensures
            text@ == (match *self {
                HeaderError::MissingHeader => "Couldn't read headers"@,
                HeaderError::UnknownMessageType => "Couldn't read message type"@,
            }),
    {
        match self {
            HeaderError::MissingHeader => String::from_str("Couldn't read headers"),
            HeaderError::UnknownMessageType => String::from_str("Couldn't read message type"),
        }
    }
}

/// Why the token exchange could not be prepared from the login callback.
#[derive(Debug, Clone, Copy, PartialEq, Eq, Structural)]
pub enum ClientError {
    /// The callback URL does not parse.
    InvalidUrl,
    /// The callback URL has no `code` query parameter.
    NoToken,
}

impl ClientError {
    /// The text that answers this error.
    pub fn message(&self) -> (text: String)
        ensures
            text@ == (match *self {
                ClientError::InvalidUrl => "Invalid URL"@,
                ClientError::NoToken => "No token received from Twitch"@,
            }),
    {
        match self {
            ClientError::InvalidUrl => String::from_str("Invalid URL"),
            ClientError::NoToken => String::from_str("No token received from Twitch"),
        }
    }
}

/// A refused signature is answered `403` with the text `CannotVerifyMessage`;
/// a body that did not decode is answered `500` with `CannotParseBody(`, the
/// decoder's error, and `)`.
pub proof fn webhook_errors_are_answered(detail: String)
    ensures
        webhook_code(Webhook::CannotVerifyMessage) == 403,
        webhook_code(Webhook::CannotParseBody(detail)) == 500,
        webhook_message(Webhook::CannotVerifyMessage) == "CannotVerifyMessage"@,
        webhook_message(Webhook::CannotParseBody(detail)) == "CannotParseBody("@ + detail@ + ")"@,
{
}

} // verus!

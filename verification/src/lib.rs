//! Verified core of a Twitch EventSub webhook and login service.
//!
//! Twitch calls the webhook with signed JSON messages: a challenge to echo
//! when a subscription is created, notifications, and revocations. The
//! webhook refuses any message whose signature does not match, then answers
//! by the request the body decodes to.

pub mod apis;
pub mod data;
pub mod error;
pub mod handlers;
pub mod html;
pub mod notifications;
pub mod text;
pub mod twitch_auth;
pub mod urls;
pub mod utils;
pub mod verification;

use vstd::prelude::*;

use crate::error::{webhook_code, webhook_message, Webhook};
use crate::notifications::{TwitchHeaders, TwitchRequest};
use crate::text::decimal;
use crate::utils::{byte_length, Length, Reply};
use crate::verification::{expected_signature, good_signature, signature_matches};

verus! {

/// What answers a request.
pub open spec fn response_to(request: TwitchRequest) -> Seq<char> {
    match request {
        TwitchRequest::WebhookCallbackVerification(v) => v.challenge@,
        TwitchRequest::Notification(_) => "Thanks for the notification!"@,
        TwitchRequest::Revocation(_) => "Sad to see you go!"@,
    }
}

/// The outcome of an EventSub message whose body decoded to `request` (or
/// failed to decode with the decoder's error text): refused when the
/// signature does not match, whatever the body; refused with the decoder's
/// error when the body did not decode; otherwise answered by the request.
pub open spec fn webhook_outcome(
    secret: Seq<char>,
    headers: TwitchHeaders,
    body: Seq<char>,
    request: Result<TwitchRequest, String>,
) -> Result<Seq<char>, Webhook> {
    if !signature_matches(secret, headers, body) {
        Err(Webhook::CannotVerifyMessage)
    } else {
        match request {
            Err(detail) => Err(Webhook::CannotParseBody(detail)),
            Ok(r) => Ok(response_to(r)),
        }
    }
}

/// The view of a webhook result.
pub open spec fn outcome_view(r: Result<String, Webhook>) -> Result<Seq<char>, Webhook> {
    match r {
        Ok(text) => Ok(text@),
        Err(e) => Err(e),
    }
}

/// The answer to a request.
pub fn respond(request: TwitchRequest) -> (text: String)
    ensures
        text@ == response_to(request),
{
    match request {
        TwitchRequest::WebhookCallbackVerification(body) => body.challenge,
        TwitchRequest::Notification(_) => String::from_str("Thanks for the notification!"),
        TwitchRequest::Revocation(_) => String::from_str("Sad to see you go!"),
    }
}

/// Handles one EventSub message, given the body and what the JSON decoder
/// made of it: a message whose signature does not match is refused before
/// the decoding is looked at; a body that did not decode is refused with the
/// decoder's error; any other message is answered by its request.
pub fn webhook(
    secret: &str,
    headers: &TwitchHeaders,
    body: &str,
    request: Result<TwitchRequest, String>,
) -> (r: Result<String, Webhook>)
    ensures
        outcome_view(r) == webhook_outcome(secret@, *headers, body@, request),
{
    if !good_signature(secret, headers, body) {
        return Err(Webhook::CannotVerifyMessage);
    }
    match request {
        Err(detail) => Err(Webhook::CannotParseBody(detail)),
        Ok(request) => Ok(respond(request)),
    }
}

/// The reply to the EventSub endpoint: `200` with the answer and its
/// `Content-Length`, or the error's status with the error's debug text.
pub fn eventsub(
    secret: &str,
    headers: &TwitchHeaders,
    body: &str,
    request: Result<TwitchRequest, String>,
) -> (reply: Reply)
    ensures
        match webhook_outcome(secret@, *headers, body@, request) {
            Ok(text) => {
                &&& reply.status == 200
                &&& reply.body@ == text
                &&& reply.content_length matches Some(length) && length@ == decimal(
                    byte_length(text) as nat,
                )
            },
            Err(e) => {
                &&& reply.status == webhook_code(e)
                &&& reply.body@ == webhook_message(e)
                &&& reply.content_length is None
            },
        },
{
    match webhook(secret, headers, body, request) {
        Ok(text) => Reply::ok(text).with_length(),
        Err(err) => Reply::from(err),
    }
}

/// Where a user lands after logging in: the authentication page with their
/// user id when their StreamElements token was found, else the token form.
pub fn landing_path(found: Option<()>, user_id: &str) -> (path: String)
    ensures
        path@ == (match found {
            Some(_) => "/authenticate?token="@ + user_id@,
            None => "/se_token"@,
        }),
{
    match found {
        Some(_) => {
            let mut path = String::from_str("/authenticate?token=");
            path.append(user_id);
            path
        },
        None => String::from_str("/se_token"),
    }
}

/// The authentication page's text for the URL it was reached at.
pub fn authenticate_page(url: &str) -> (text: String)
    ensures
        text@ == "This is how you got here: "@ + url@,
{
    let mut text = String::from_str("This is how you got here: ");
    text.append(url);
    text
}

/// The outcome depends on the headers only through the message id, the
/// timestamp and the signature: the message type, retry count and
/// subscription headers do not change it.
pub proof fn outcome_ignores_other_headers(
    secret: Seq<char>,
    headers1: TwitchHeaders,
    headers2: TwitchHeaders,
    body: Seq<char>,
    request: Result<TwitchRequest, String>,
)
    requires
        headers1.id@ == headers2.id@,
        headers1.timestamp@ == headers2.timestamp@,
        headers1.signature@ == headers2.signature@,
    ensures
        webhook_outcome(secret, headers1, body, request) == webhook_outcome(
            secret,
            headers2,
            body,
            request,
        ),
{
}

/// A message that carries the signature its secret gives it is never refused
/// for its signature.
pub proof fn signed_message_is_not_refused(
    secret: Seq<char>,
    headers: TwitchHeaders,
    body: Seq<char>,
    request: Result<TwitchRequest, String>,
)
    requires
        headers.signature@ == expected_signature(secret, headers.id@, headers.timestamp@, body),
    ensures
        webhook_outcome(secret, headers, body, request) != Err::<Seq<char>, Webhook>(
            Webhook::CannotVerifyMessage,
        ),
{
}

/// A message whose signature does not match is refused for its signature,
/// whatever its body decoded to.
pub proof fn unsigned_message_is_refused(
    secret: Seq<char>,
    headers: TwitchHeaders,
    body: Seq<char>,
    request1: Result<TwitchRequest, String>,
    request2: Result<TwitchRequest, String>,
)
    requires
        !signature_matches(secret, headers, body),
    ensures
        webhook_outcome(secret, headers, body, request1) == Err::<Seq<char>, Webhook>(
            Webhook::CannotVerifyMessage,
        ),
        webhook_outcome(secret, headers, body, request1) == webhook_outcome(
            secret,
            headers,
            body,
            request2,
        ),
{
}

/// A correctly signed message is answered by the request its body decoded
/// to: a verification with its challenge, a notification with thanks, a
/// revocation with regret.
pub proof fn signed_request_is_answered(
    secret: Seq<char>,
    headers: TwitchHeaders,
    body: Seq<char>,
    request: TwitchRequest,
)
    requires
        signature_matches(secret, headers, body),
    ensures
        webhook_outcome(secret, headers, body, Ok(request)) == Ok::<Seq<char>, Webhook>(
            response_to(request),
        ),
{
}

/// A correctly signed message is answered by the kind of request its body
/// decoded to: a verification with its own challenge, every notification
/// (whatever its subscription type or condition) with thanks, every
/// revocation with regret, and a body that did not decode with the decoder's
/// error; the notification and revocation answers differ.
pub proof fn signed_messages_are_answered_by_kind(
    secret: Seq<char>,
    headers: TwitchHeaders,
    body: Seq<char>,
    request: Result<TwitchRequest, String>,
)
    requires
        signature_matches(secret, headers, body),
    ensures
        match request {
            Ok(TwitchRequest::WebhookCallbackVerification(v)) => webhook_outcome(
                secret,
                headers,
                body,
                request,
            ) == Ok::<Seq<char>, Webhook>(v.challenge@),
            Ok(TwitchRequest::Notification(_)) => webhook_outcome(secret, headers, body, request)
                == Ok::<Seq<char>, Webhook>("Thanks for the notification!"@),
            Ok(TwitchRequest::Revocation(_)) => webhook_outcome(secret, headers, body, request)
                == Ok::<Seq<char>, Webhook>("Sad to see you go!"@),
            Err(detail) => webhook_outcome(secret, headers, body, request) == Err::<
                Seq<char>,
                Webhook,
            >(Webhook::CannotParseBody(detail)),
        },
        "Thanks for the notification!"@ != "Sad to see you go!"@,
{
    reveal_strlit("Thanks for the notification!");
    reveal_strlit("Sad to see you go!");
    assert("Thanks for the notification!"@.len() != "Sad to see you go!"@.len());
}

/// The view of a webhook result keeps the answer's text and the error as they are.
pub proof fn outcome_view_keeps_result(text: String, e: Webhook)
    ensures
        outcome_view(Ok(text)) == Ok::<Seq<char>, Webhook>(text@),
        outcome_view(Err(e)) == Err::<Seq<char>, Webhook>(e),
{
}

} // verus!

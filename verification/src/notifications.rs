//! The messages and headers of Twitch's EventSub webhook transport.

use vstd::prelude::*;

use crate::error::HeaderError;

verus! {

/// The kind of message an EventSub request carries, from its message type header.
#[derive(Debug, Clone, Copy, PartialEq, Eq, Structural, Default)]
pub enum MessageType {
    #[default]
    Notification,
    WebhookCallbackVerification,
    Revocation,
}

/// The message type that a header value names, if any.
pub open spec fn message_type_named(name: Seq<char>) -> Option<MessageType> {
    if name == "notification"@ {
        Some(MessageType::Notification)
    } else if name == "webhook_callback_verification"@ {
        Some(MessageType::WebhookCallbackVerification)
    } else if name == "revocation"@ {
        Some(MessageType::Revocation)
    } else {
        None
    }
}

impl MessageType {
    /// Reads a message type header value; any other value is refused.
    pub fn try_from(name: String) -> (r: Result<MessageType, HeaderError>)
        ensures
            r == (match message_type_named(name@) {
                Some(t) => Ok(t),
                None => Err(HeaderError::UnknownMessageType),
            }),
    {
        if name == String::from_str("notification") {
            Ok(MessageType::Notification)
        } else if name == String::from_str("webhook_callback_verification") {
            Ok(MessageType::WebhookCallbackVerification)
        } else if name == String::from_str("revocation") {
            Ok(MessageType::Revocation)
        } else {
            Err(HeaderError::UnknownMessageType)
        }
    }
}

/// The EventSub headers of one request.
#[derive(Debug, Default)]
pub struct TwitchHeaders {
    pub id: String,
    pub retry: String,
    pub message_type: MessageType,
    pub signature: String,
    pub timestamp: String,
    pub subscription_type: String,
    pub subscription_version: String,
}

/// An EventSub request body: the first of these shapes that the body fits,
/// as serde's untagged decoding reads it.
#[derive(Debug)]
pub enum TwitchRequest {
    WebhookCallbackVerification(WebhookCallbackVerification),
    Notification(Notification),
    Revocation(Revocation),
}

/// Twitch asks the callback to echo `challenge` to confirm a subscription.
#[derive(Debug)]
pub struct WebhookCallbackVerification {
    pub challenge: String,
    pub subscription: Subscription,
}

/// An event of a subscription.
#[derive(Debug)]
pub struct Notification {
    pub subscription: Subscription,
    pub event: Event,
}

/// The user an event is about.
#[derive(Debug)]
pub struct Event {
    pub user_id: String,
    pub user_name: String,
}

/// A subscription as Twitch describes it; `notification_type` is its `type` member.
#[derive(Debug)]
pub struct Subscription {
    pub id: String,
    pub notification_type: NotificationType,
    pub status: String,
    pub condition: Condition,
    pub created_at: String,
}

/// The subscription types this service handles.
#[derive(Debug, Clone, Copy, PartialEq, Eq, Structural)]
pub enum NotificationType {
    /// `channel.channel_points_custom_reward_redemption.add`
    Redemption,
    /// `channel.follow`
    Follow,
}

/// The condition of a subscription: the first of these shapes that fits.
#[derive(Debug)]
pub enum Condition {
    Redemption(RedemptionCondition),
    Follow(FollowCondition),
}

#[derive(Debug)]
pub struct RedemptionCondition {
    pub broadcaster_user_id: String,
    pub reward_id: String,
}

#[derive(Debug)]
pub struct FollowCondition {
    pub broadcaster_user_id: String,
}

/// Twitch ended a subscription.
#[derive(Debug)]
pub struct Revocation {
    pub subscription: Subscription,
}

/// The header that carries the message id.
pub const MESSAGE_ID_HEADER: &'static str = "Twitch-Eventsub-Message-Id";
/// The header that carries the retry count.
pub const MESSAGE_RETRY_HEADER: &'static str = "Twitch-Eventsub-Message-Retry";
/// The header that carries the message type.
pub const MESSAGE_TYPE_HEADER: &'static str = "Twitch-Eventsub-Message-Type";
/// The header that carries the signature.
pub const MESSAGE_SIGNATURE_HEADER: &'static str = "Twitch-Eventsub-Message-Signature";
/// The header that carries the timestamp.
pub const MESSAGE_TIMESTAMP_HEADER: &'static str = "Twitch-Eventsub-Message-Timestamp";
/// The header that carries the subscription type.
pub const SUBSCRIPTION_TYPE_HEADER: &'static str = "Twitch-Eventsub-Subscription-Type";
/// The header that carries the subscription version.
pub const SUBSCRIPTION_VERSION_HEADER: &'static str = "Twitch-Eventsub-Subscription-Version";

/// A header's value, or `MissingHeader` when the request lacks it.
pub fn grab_header(value: Option<String>) -> (r: Result<String, HeaderError>)
    ensures
        r == (match value {
            Some(v) => Ok(v),
            None => Err(HeaderError::MissingHeader),
        }),
{
    match value {
        Some(v) => Ok(v),
        None => Err(HeaderError::MissingHeader),
    }
}

/// The error of reading the headers, in the order they are read: id, retry,
/// message type (absent, then unknown), signature, timestamp, subscription
/// type, subscription version.
pub open spec fn header_error(
    id: Option<String>,
    retry: Option<String>,
    message_type: Option<String>,
    signature: Option<String>,
    timestamp: Option<String>,
    subscription_type: Option<String>,
    subscription_version: Option<String>,
) -> Option<HeaderError> {
    if id is None || retry is None || message_type is None {
        Some(HeaderError::MissingHeader)
    } else if message_type_named(message_type->0@) is None {
        Some(HeaderError::UnknownMessageType)
    } else if signature is None || timestamp is None || subscription_type is None
        || subscription_version is None {
        Some(HeaderError::MissingHeader)
    } else {
        None
    }
}

impl TwitchHeaders {
    /// Builds the header set from the values of the seven EventSub headers,
    /// each `None` when the request lacks it.
    pub fn try_from(
        id: Option<String>,
        retry: Option<String>,
        message_type: Option<String>,
        signature: Option<String>,
        timestamp: Option<String>,
        subscription_type: Option<String>,
        subscription_version: Option<String>,
    ) -> (r: Result<TwitchHeaders, HeaderError>)
        ensures
            match header_error(
                id,
                retry,
                message_type,
                signature,
                timestamp,
                subscription_type,
                subscription_version,
            ) {
                Some(e) => r == Err::<TwitchHeaders, HeaderError>(e),
                None => r matches Ok(h) && {
                    &&& Some(h.id) == id
                    &&& Some(h.retry) == retry
                    &&& message_type_named(message_type->0@) == Some(h.message_type)
                    &&& Some(h.signature) == signature
                    &&& Some(h.timestamp) == timestamp
                    &&& Some(h.subscription_type) == subscription_type
                    &&& Some(h.subscription_version) == subscription_version
                },
            },
    {
        let id = grab_header(id)?;
        let retry = grab_header(retry)?;
        let message_type = MessageType::try_from(grab_header(message_type)?)?;
        Ok(
            TwitchHeaders {
                id,
                retry,
                message_type,
                signature: grab_header(signature)?,
                timestamp: grab_header(timestamp)?,
                subscription_type: grab_header(subscription_type)?,
                subscription_version: grab_header(subscription_version)?,
            },
        )
    }
}

/// The message type header names its type: `notification`,
/// `webhook_callback_verification` and `revocation` are read as the types of
/// the same names, and nothing else is read.
pub proof fn message_types_by_name(name: Seq<char>)
    ensures
        name == "notification"@ ==> message_type_named(name) == Some(MessageType::Notification),
        name == "webhook_callback_verification"@ ==> message_type_named(name) == Some(
            MessageType::WebhookCallbackVerification,
        ),
        name == "revocation"@ ==> message_type_named(name) == Some(MessageType::Revocation),
        !(name == "notification"@ || name == "webhook_callback_verification"@ || name
            == "revocation"@) ==> message_type_named(name) is None,
{
    reveal_strlit("notification");
    reveal_strlit("webhook_callback_verification");
    reveal_strlit("revocation");
    assert("notification"@.len() == 12);
    assert("webhook_callback_verification"@.len() == 29);
    assert("revocation"@.len() == 10);
}

/// Reading the seven headers fails only for a missing header or an unknown
/// message type, whichever comes first in reading order: with all seven
/// present and a known message type it succeeds, whatever that type is.
pub proof fn headers_are_read_when_complete(
    id: Option<String>,
    retry: Option<String>,
    message_type: Option<String>,
    signature: Option<String>,
    timestamp: Option<String>,
    subscription_type: Option<String>,
    subscription_version: Option<String>,
)
    ensures
        id is None || retry is None || message_type is None ==> header_error(
            id,
            retry,
            message_type,
            signature,
            timestamp,
            subscription_type,
            subscription_version,
        ) == Some(HeaderError::MissingHeader),
        id is Some && retry is Some && message_type is Some && !(message_type->0@ == "notification"@ || message_type->0@ == "webhook_callback_verification"@
            || message_type->0@ == "revocation"@) ==> header_error(
            id,
            retry,
            message_type,
            signature,
            timestamp,
            subscription_type,
            subscription_version,
        ) == Some(HeaderError::UnknownMessageType),
        id is Some && retry is Some && message_type is Some && (message_type->0@ == "notification"@ || message_type->0@ == "webhook_callback_verification"@
            || message_type->0@ == "revocation"@) ==> (header_error(
            id,
            retry,
            message_type,
            signature,
            timestamp,
            subscription_type,
            subscription_version,
        ) is None <==> (signature is Some && timestamp is Some && subscription_type is Some
            && subscription_version is Some)),
        id is Some && retry is Some && message_type is Some && (message_type->0@ == "notification"@ || message_type->0@ == "webhook_callback_verification"@
            || message_type->0@ == "revocation"@) && header_error(
            id,
            retry,
            message_type,
            signature,
            timestamp,
            subscription_type,
            subscription_version,
        ) is Some ==> header_error(
            id,
            retry,
            message_type,
            signature,
            timestamp,
            subscription_type,
            subscription_version,
        ) == Some(HeaderError::MissingHeader),
{
    if message_type is Some {
        message_types_by_name(message_type->0@);
    }
}

} // verus!

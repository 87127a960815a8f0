//! Scenarios for the library's functions, one per rule or edge case.

use pond_opener::apis::User;
use pond_opener::data::{Client, Secrets};
use pond_opener::error::{ClientError, HeaderError, Webhook};
use pond_opener::handlers::challenge_callback;
use pond_opener::notifications::{
    Condition, Event, FollowCondition, MessageType, Notification, NotificationType, Revocation,
    Subscription, TwitchHeaders, TwitchRequest, WebhookCallbackVerification,
};
use pond_opener::text::{join_strs, push_decimal, push_hex_lower};
use pond_opener::twitch_auth::{
    app_access_token_form, authorization_flow, bearer, request_token_form, Scopes, TokenMetadata,
};
use pond_opener::utils::{Length, Reply};
use pond_opener::verification::{good_hmac, good_signature, message_signature};
use pond_opener::{authenticate_page, eventsub, landing_path, respond, webhook};

const REDEMPTION_NOTIFICATION: &str = r#"{
    "subscription": {
        "id": "sub-1",
        "status": "enabled",
        "type": "channel.channel_points_custom_reward_redemption.add",
        "version": "1",
        "condition": {"broadcaster_user_id": "12826", "reward_id": "239847"},
        "created_at": "2019-11-16T10:11:12.634234626Z"
    },
    "event": {"user_id": "1337", "user_name": "Awesome_User"}
}"#;

const FOLLOW_REVOCATION: &str = r#"{
    "subscription": {
        "id": "sub-2",
        "status": "authorization_revoked",
        "type": "channel.follow",
        "condition": {"broadcaster_user_id": "99"},
        "created_at": "2020-01-01T00:00:00Z"
    }
}"#;

fn signed_headers(secret: &str, body: &str) -> TwitchHeaders {
    let mut headers = TwitchHeaders {
        id: "msg-1".to_string(),
        timestamp: "2020-01-01T00:00:00Z".to_string(),
        ..Default::default()
    };
    headers.signature = message_signature(secret, &headers.id, &headers.timestamp, body);
    headers
}

fn metadata() -> TokenMetadata {
    TokenMetadata {
        client_id: "client".to_string(),
        login: "fitti".to_string(),
        scopes: vec!["channel:manage:redemptions".to_string()],
        user_id: "42".to_string(),
        expires_in: 3600,
    }
}

#[test]
fn signature_is_hmac_sha256_of_id_timestamp_body_in_hex() {
    assert_eq!(
        message_signature("secret", "id", "ts", "{}"),
        "sha256=333448268c4a9a4fa93abdf5fdbeba9b8c7f0e14ff9c33732b7b89370c3f2be7"
    );
}

#[test]
fn good_signature_accepts_only_the_matching_signature() {
    let headers = signed_headers("s3cret", "BODY");
    assert!(good_signature("s3cret", &headers, "BODY"));
    assert!(!good_signature("other", &headers, "BODY"));
    assert!(!good_signature("s3cret", &headers, "BODY!"));
    let mut upper = signed_headers("s3cret", "BODY");
    upper.signature = upper.signature.to_uppercase();
    assert!(!good_signature("s3cret", &upper, "BODY"));
}

#[test]
fn good_hmac_accepts_everything() {
    assert!(good_hmac("x".to_string(), TwitchHeaders::default()));
}

fn follow_subscription() -> Subscription {
    Subscription {
        id: "1".to_string(),
        notification_type: NotificationType::Follow,
        status: "s".to_string(),
        condition: Condition::Follow(FollowCondition { broadcaster_user_id: "2".to_string() }),
        created_at: "t".to_string(),
    }
}

fn notification() -> TwitchRequest {
    TwitchRequest::Notification(Notification {
        subscription: follow_subscription(),
        event: Event { user_id: "1337".to_string(), user_name: "Awesome_User".to_string() },
    })
}

#[test]
fn bad_signature_is_refused_before_the_decoding_is_looked_at() {
    let mut headers = signed_headers("s3cret", "not json");
    let refused = webhook("s3cret", &headers, "not json", Err("Error(\"x\")".to_string()));
    assert!(matches!(refused, Err(Webhook::CannotParseBody(ref e)) if e == "Error(\"x\")"));
    headers.signature = "sha256=00".to_string();
    let refused = webhook("s3cret", &headers, "not json", Err("Error(\"x\")".to_string()));
    assert!(matches!(refused, Err(Webhook::CannotVerifyMessage)));
    let refused = webhook("s3cret", &headers, "not json", Ok(notification()));
    assert!(matches!(refused, Err(Webhook::CannotVerifyMessage)));
}

#[test]
fn notification_and_revocation_replies() {
    let headers = signed_headers("k", REDEMPTION_NOTIFICATION);
    assert_eq!(
        webhook("k", &headers, REDEMPTION_NOTIFICATION, Ok(notification())).unwrap(),
        "Thanks for the notification!"
    );
    let headers = signed_headers("k", FOLLOW_REVOCATION);
    let revocation = TwitchRequest::Revocation(Revocation { subscription: follow_subscription() });
    assert_eq!(webhook("k", &headers, FOLLOW_REVOCATION, Ok(revocation)).unwrap(), "Sad to see you go!");
}

#[test]
fn eventsub_replies_carry_status_and_length() {
    let headers = signed_headers("k", REDEMPTION_NOTIFICATION);
    let reply = eventsub("k", &headers, REDEMPTION_NOTIFICATION, Ok(notification()));
    assert_eq!(reply.status, 200);
    assert_eq!(reply.body, "Thanks for the notification!");
    assert_eq!(reply.content_length.as_deref(), Some("28"));
    let reply = eventsub("wrong", &headers, REDEMPTION_NOTIFICATION, Ok(notification()));
    assert_eq!(reply.status, 403);
    assert_eq!(reply.body, "CannotVerifyMessage");
    assert_eq!(reply.content_length, None);
    let headers = signed_headers("k", "{");
    let detail = "Error(\"EOF while parsing an object\", line: 1, column: 1)".to_string();
    let reply = eventsub("k", &headers, "{", Err(detail));
    assert_eq!(reply.status, 500);
    assert_eq!(
        reply.body,
        "CannotParseBody(Error(\"EOF while parsing an object\", line: 1, column: 1))"
    );
    assert_eq!(reply.content_length, None);
}

#[test]
fn webhook_errors_codes_and_messages() {
    assert_eq!(Webhook::CannotVerifyMessage.code(), 403);
    assert_eq!(Webhook::CannotParseBody(String::new()).code(), 500);
    assert_eq!(Webhook::CannotVerifyMessage.message(), "CannotVerifyMessage");
    let err = Webhook::CannotParseBody("Error(\"bad\", line: 2, column: 3)".to_string());
    assert_eq!(err.message(), "CannotParseBody(Error(\"bad\", line: 2, column: 3))");
    assert_eq!(HeaderError::MissingHeader.message(), "Couldn't read headers");
    assert_eq!(HeaderError::UnknownMessageType.message(), "Couldn't read message type");
    assert_eq!(ClientError::NoToken.message(), "No token received from Twitch");
}

#[test]
fn respond_and_challenge_callback() {
    let request = TwitchRequest::WebhookCallbackVerification(WebhookCallbackVerification {
        challenge: "echo me".to_string(),
        subscription: Subscription {
            id: "1".to_string(),
            notification_type: NotificationType::Follow,
            status: "s".to_string(),
            condition: Condition::Follow(FollowCondition { broadcaster_user_id: "2".to_string() }),
            created_at: "t".to_string(),
        },
    });
    assert_eq!(respond(request), "echo me");
    let body = WebhookCallbackVerification {
        challenge: "c".to_string(),
        subscription: Subscription {
            id: "1".to_string(),
            notification_type: NotificationType::Follow,
            status: "s".to_string(),
            condition: Condition::Follow(FollowCondition { broadcaster_user_id: "2".to_string() }),
            created_at: "t".to_string(),
        },
    };
    assert_eq!(challenge_callback(body), "Pog");
}

#[test]
fn content_length_counts_utf8_bytes() {
    let reply = Reply::ok("héllo".to_string()).with_length();
    assert_eq!(reply.content_length.as_deref(), Some("6"));
    let reply = Reply::ok(String::new()).with_length();
    assert_eq!(reply.content_length.as_deref(), Some("0"));
}

#[test]
fn decimal_and_hex_encodings() {
    let mut s = String::from("n=");
    push_decimal(&mut s, 1234567890);
    assert_eq!(s, "n=1234567890");
    let mut s = String::new();
    push_decimal(&mut s, 0);
    assert_eq!(s, "0");
    let mut s = String::new();
    push_hex_lower(&mut s, &[0x00, 0x0f, 0xa5, 0xff]);
    assert_eq!(s, "000fa5ff");
}

#[test]
fn message_types_are_read_by_name() {
    assert_eq!(MessageType::try_from("notification".to_string()), Ok(MessageType::Notification));
    assert_eq!(
        MessageType::try_from("webhook_callback_verification".to_string()),
        Ok(MessageType::WebhookCallbackVerification)
    );
    assert_eq!(MessageType::try_from("revocation".to_string()), Ok(MessageType::Revocation));
    assert_eq!(
        MessageType::try_from("Notification".to_string()),
        Err(HeaderError::UnknownMessageType)
    );
}

fn some(s: &str) -> Option<String> {
    Some(s.to_string())
}

#[test]
fn headers_are_read_in_order() {
    let h = TwitchHeaders::try_from(
        some("id"), some("0"), some("revocation"), some("sig"), some("ts"), some("t"), some("1"),
    )
    .unwrap();
    assert_eq!(h.id, "id");
    assert_eq!(h.message_type, MessageType::Revocation);
    assert_eq!(h.subscription_version, "1");
    let unknown_then_missing = TwitchHeaders::try_from(
        some("id"), some("0"), some("bogus"), None, some("ts"), some("t"), some("1"),
    );
    assert_eq!(unknown_then_missing.unwrap_err(), HeaderError::UnknownMessageType);
    let missing_first = TwitchHeaders::try_from(
        None, some("0"), some("bogus"), some("sig"), some("ts"), some("t"), some("1"),
    );
    assert_eq!(missing_first.unwrap_err(), HeaderError::MissingHeader);
    let missing_last = TwitchHeaders::try_from(
        some("id"), some("0"), some("notification"), some("sig"), some("ts"), some("t"), None,
    );
    assert_eq!(missing_last.unwrap_err(), HeaderError::MissingHeader);
}

#[test]
fn secrets_need_all_three() {
    let s = Secrets::retrieve(some("h"), some("c"), some("s")).unwrap();
    assert_eq!((s.hmac.as_str(), s.client_id.as_str(), s.client_secret.as_str()), ("h", "c", "s"));
    assert!(Secrets::retrieve(some("h"), None, some("s")).is_none());
}

fn secrets() -> Secrets {
    Secrets::retrieve(some("hmac"), some("cid"), some("csecret")).unwrap()
}

#[test]
fn client_from_login_callback() {
    let client =
        Client::new("https://fishinge.fitti.io/twitch_token?scope=x&code=ab%20c&code=zz", &secrets())
            .unwrap();
    assert_eq!(client.code, "ab c");
    assert_eq!(client.redirect, "https://fishinge.fitti.io/twitch_token");
    assert_eq!(client.client_id, "cid");
    assert_eq!(client.client_secret, "csecret");
    assert_eq!(client.token, "");
    let client = Client::new("https://example.com/other/path?code=1", &secrets()).unwrap();
    assert_eq!(client.redirect, "https://example.com/twitch_token");
}

#[test]
fn client_errors() {
    assert_eq!(
        Client::new("https://example.com/twitch_token?state=1", &secrets()).unwrap_err(),
        ClientError::NoToken
    );
    assert_eq!(Client::new("not a url", &secrets()).unwrap_err(), ClientError::InvalidUrl);
}

#[test]
fn authorization_url() {
    assert_eq!(
        authorization_flow("https://example.com/login?x=1", "abc").unwrap(),
        "https://id.twitch.tv/oauth2/authorize?client_id=abc\
         &redirect_uri=https%3A%2F%2Fexample.com%2Fget_token&response_type=code\
         &scope=channel%3Amanage%3Aredemptions"
    );
    assert_eq!(authorization_flow("nope", "abc"), Err(ClientError::InvalidUrl));
}

#[test]
fn scopes_and_joins() {
    assert_eq!(Scopes::from(&["a", "b:c", "d"]).0, "a b:c d");
    assert_eq!(Scopes::from(&[]).0, "");
    assert_eq!(join_strs(&["x"], ", "), "x");
}

#[test]
fn token_forms_and_bearer() {
    let client = Client::new("https://example.com/?code=c0de", &secrets()).unwrap();
    let form = request_token_form(client.clone());
    let expected: Vec<(String, String)> = vec![
        ("client_id".into(), "cid".into()),
        ("client_secret".into(), "csecret".into()),
        ("code".into(), "c0de".into()),
        ("grant_type".into(), "authorization_code".into()),
        ("redirect_uri".into(), client.redirect.clone()),
    ];
    assert_eq!(form, expected);
    assert_eq!(
        app_access_token_form("i", "s"),
        vec![
            ("client_id".to_string(), "i".to_string()),
            ("client_secret".to_string(), "s".to_string()),
            ("grant_type".to_string(), "client_credentials".to_string()),
        ]
    );
    assert_eq!(bearer("tok"), "Bearer tok");
}

#[test]
fn users_and_their_streamelements_token() {
    let mut user = User::from_login("access".to_string(), metadata());
    assert_eq!(user.se_token, None);
    assert_eq!(user.with_se_token(None), None);
    assert_eq!(user.se_token, None);
    let stored_without = User::from_login("old".to_string(), metadata());
    assert_eq!(user.with_se_token(Some(stored_without)), None);
    assert_eq!(user.se_token, None);
    let mut stored = User::from_login("old".to_string(), metadata());
    stored.se_token = Some("jwt".to_string());
    assert_eq!(user.with_se_token(Some(stored)), Some(()));
    assert_eq!(user.se_token.as_deref(), Some("jwt"));
    assert_eq!(user.access_token, "access");
}

#[test]
fn landing_and_authentication_pages() {
    assert_eq!(landing_path(Some(()), "42"), "/authenticate?token=42");
    assert_eq!(landing_path(None, "42"), "/se_token");
    assert_eq!(authenticate_page("https://x/y"), "This is how you got here: https://x/y");
}

#[test]
fn webhook_errors_become_replies() {
    let reply = Reply::from(Webhook::CannotVerifyMessage);
    assert_eq!((reply.status, reply.body.as_str()), (403, "CannotVerifyMessage"));
    assert_eq!(reply.content_length, None);
    let reply = Reply::from(Webhook::CannotParseBody("Error(\"e\", line: 1, column: 2)".to_string()));
    assert_eq!((reply.status, reply.body.as_str()), (500, "CannotParseBody(Error(\"e\", line: 1, column: 2))"));
}

//! Twitch's OAuth flow: the authorization URL, the token requests, and the
//! shapes of Twitch's answers.

use vstd::prelude::*;

use crate::data::Client;
use crate::error::ClientError;
use crate::text::{join, join_separates_parts, join_strs, str_views};
use crate::urls::{append_pairs, join as join_url, pair_views, url_joined, url_pairs_appended};

verus! {

/// Where users authorize the application.
pub const AUTHORIZE_URL: &'static str = "https://id.twitch.tv/oauth2/authorize";
/// Where codes and credentials are exchanged for tokens.
pub const TOKEN_URL: &'static str = "https://id.twitch.tv/oauth2/token";
/// Where access tokens are validated.
pub const VALIDATE_URL: &'static str = "https://id.twitch.tv/oauth2/validate";

/// The access token of a user.
pub type UserAccessToken = String;

/// Twitch's answer to a code exchange.
#[derive(Debug)]
pub struct UserAccessTokenResponse {
    pub access_token: UserAccessToken,
    pub expires_in: usize,
    pub refresh_token: String,
    pub scope: Vec<String>,
    pub token_type: String,
}

/// Twitch's answer to a token validation.
#[derive(Debug)]
pub enum ValidationResponse {
    Valid(TokenMetadata),
    Invalid(InvalidToken),
}

/// What Twitch knows of a valid token.
#[derive(Debug)]
pub struct TokenMetadata {
    pub client_id: String,
    pub login: String,
    pub scopes: Vec<String>,
    pub user_id: String,
    pub expires_in: usize,
}

/// Twitch's refusal of a token.
#[derive(Debug)]
pub struct InvalidToken {
    pub status: usize,
    pub message: String,
}

/// Twitch's answer to a client credentials grant.
#[derive(Debug)]
pub struct AppAccessTokenResponse {
    pub access_token: String,
    pub expires_in: usize,
    pub token_type: String,
}

/// OAuth scopes, space-separated.
#[derive(Debug)]
pub struct Scopes(pub String);

impl Scopes {
    /// The scopes joined by single spaces.
    pub fn from(scopes: &[&str]) -> (r: Scopes)
        ensures
            r.0@ == join(str_views(scopes@), " "@),
    {
        Scopes(join_strs(scopes, " "))
    }
}

/// The scope this service asks for.
pub const SCOPE: &'static str = "channel:manage:redemptions";

/// The query of the authorization URL for a redirect URI and scope list.
pub open spec fn authorization_query(
    client_id: Seq<char>,
    redirect_uri: Seq<char>,
    scope: Seq<char>,
) -> Seq<(Seq<char>, Seq<char>)> {
    seq![
        ("client_id"@, client_id),
        ("redirect_uri"@, redirect_uri),
        ("response_type"@, "code"@),
        ("scope"@, scope),
    ]
}

/// The authorization URL for a redirect base and client id, when the URLs parse.
pub open spec fn authorization_url(redirect: Seq<char>, client_id: Seq<char>) -> Option<Seq<char>> {
    match url_joined(redirect, "/get_token"@) {
        Some(redirect_uri) => url_pairs_appended(
            AUTHORIZE_URL@,
            authorization_query(client_id, redirect_uri, join(seq![SCOPE@], " "@)),
        ),
        None => None,
    }
}

/// The URL that sends a user to authorize this client: Twitch's authorize
/// endpoint with the client id, the redirect `/get_token` on the same site as
/// `redirect`, response type `code`, and the scope.
pub fn authorization_flow(redirect: &str, client_id: &str) -> (r: Result<String, ClientError>)
    ensures
        match authorization_url(redirect@, client_id@) {
            Some(url) => r matches Ok(s) && s@ == url,
            None => r == Err::<String, ClientError>(ClientError::InvalidUrl),
        },
{
    let redirect_uri = match join_url(redirect, "/get_token") {
        Some(u) => u,
        None => return Err(ClientError::InvalidUrl),
    };
    let scope_list: [&str; 1] = [SCOPE];
    let scopes = Scopes::from(&scope_list);
    proof {
        assert(str_views(scope_list@) =~= seq![SCOPE@]);
    }
    let mut query: Vec<(String, String)> = Vec::new();
    query.push((String::from_str("client_id"), String::from_str(client_id)));
    query.push((String::from_str("redirect_uri"), redirect_uri));
    query.push((String::from_str("response_type"), String::from_str("code")));
    query.push((String::from_str("scope"), scopes.0));
    proof {
        assert(pair_views(query@) =~= authorization_query(
            client_id@,
            url_joined(redirect@, "/get_token"@)->0,
            join(seq![SCOPE@], " "@),
        ));
    }
    match append_pairs(AUTHORIZE_URL, &query) {
        Some(url) => Ok(url),
        None => Err(ClientError::InvalidUrl),
    }
}

/// The form that exchanges a login code for a user access token.
pub fn request_token_form(data: Client) -> (form: Vec<(String, String)>)
    ensures
        pair_views(form@) == seq![
            ("client_id"@, data.client_id@),
            ("client_secret"@, data.client_secret@),
            ("code"@, data.code@),
            ("grant_type"@, "authorization_code"@),
            ("redirect_uri"@, data.redirect@),
        ],
{
    let mut form: Vec<(String, String)> = Vec::new();
    form.push((String::from_str("client_id"), data.client_id));
    form.push((String::from_str("client_secret"), data.client_secret));
    form.push((String::from_str("code"), data.code));
    form.push((String::from_str("grant_type"), String::from_str("authorization_code")));
    form.push((String::from_str("redirect_uri"), data.redirect));
    proof {
        assert(pair_views(form@) =~= seq![
            ("client_id"@, data.client_id@),
            ("client_secret"@, data.client_secret@),
            ("code"@, data.code@),
            ("grant_type"@, "authorization_code"@),
            ("redirect_uri"@, data.redirect@),
        ]);
    }
    form
}

/// The form of a client credentials grant.
pub fn app_access_token_form(client_id: &str, client_secret: &str) -> (form: Vec<(String, String)>)
    ensures
        pair_views(form@) == seq![
            ("client_id"@, client_id@),
            ("client_secret"@, client_secret@),
            ("grant_type"@, "client_credentials"@),
        ],
{
    let mut form: Vec<(String, String)> = Vec::new();
    form.push((String::from_str("client_id"), String::from_str(client_id)));
    form.push((String::from_str("client_secret"), String::from_str(client_secret)));
    form.push((String::from_str("grant_type"), String::from_str("client_credentials")));
    proof {
        assert(pair_views(form@) =~= seq![
            ("client_id"@, client_id@),
            ("client_secret"@, client_secret@),
            ("grant_type"@, "client_credentials"@),
        ]);
    }
    form
}

/// The `Authorization` header value that presents `token` for validation.
pub fn bearer(token: &str) -> (value: String)
    ensures
        value@ == "Bearer "@ + token@,
{
    let mut value = String::from_str("Bearer ");
    value.append(token);
    value
}

/// The authorization URL is Twitch's authorize endpoint with exactly four
/// query pairs, in order: the client id, the redirect `/get_token` on the
/// redirect's site, response type `code` (whatever the client id), and the
/// scope `channel:manage:redemptions`; there is none when the redirect does
/// not join.
pub proof fn authorization_asks_for_a_code(redirect: Seq<char>, client_id: Seq<char>)
    ensures
        authorization_url(redirect, client_id) == match url_joined(redirect, "/get_token"@) {
            Some(redirect_uri) => url_pairs_appended(
                "https://id.twitch.tv/oauth2/authorize"@,
                seq![
                    ("client_id"@, client_id),
                    ("redirect_uri"@, redirect_uri),
                    ("response_type"@, "code"@),
                    ("scope"@, "channel:manage:redemptions"@),
                ],
            ),
            None => None,
        },
{
    join_separates_parts(Seq::empty(), SCOPE@, " "@);
}

} // verus!

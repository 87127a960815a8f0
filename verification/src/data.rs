//! The service's secrets, and the token exchange client built from a login callback.

use vstd::prelude::*;

use crate::error::ClientError;
use crate::urls::{
    pair_views, query_pairs, url_query_pairs, url_with_path_without_query,
    with_path_without_query,
};

verus! {

/// The secrets the service runs with.
pub struct Secrets {
    pub hmac: String,
    pub client_id: String,
    pub client_secret: String,
}

impl Secrets {
    /// The secrets, when all three are set.
    pub fn retrieve(
        hmac: Option<String>,
        client_id: Option<String>,
        client_secret: Option<String>,
    ) -> (r: Option<Secrets>)
        ensures
            r is Some <==> (hmac is Some && client_id is Some && client_secret is Some),
            r matches Some(s) ==> Some(s.hmac) == hmac && Some(s.client_id) == client_id && Some(
                s.client_secret,
            ) == client_secret,
    {
        Some(Secrets { hmac: hmac?, client_id: client_id?, client_secret: client_secret? })
    }
}

/// What the token exchange needs.
#[derive(Debug, Clone)]
pub struct Client {
    pub redirect: String,
    pub client_id: String,
    pub client_secret: String,
    pub code: String,
    pub token: String,
}

/// The value of the first pair whose key is `key`.
pub open spec fn first_value(pairs: Seq<(Seq<char>, Seq<char>)>, key: Seq<char>) -> Option<
    Seq<char>,
>
    decreases pairs.len(),
{
    if pairs.len() == 0 {
        None
    } else if pairs[0].0 == key {
        Some(pairs[0].1)
    } else {
        first_value(pairs.drop_first(), key)
    }
}

/// The value of the first pair whose key is `key`.
pub fn find_value(pairs: &Vec<(String, String)>, key: &str) -> (r: Option<String>)
    ensures
        r is Some <==> first_value(pair_views(pairs@), key@) is Some,
        r matches Some(v) ==> v@ == first_value(pair_views(pairs@), key@)->0,
{
    let ghost views = pair_views(pairs@);
    let wanted = String::from_str(key);
    let n = pairs.len();
    let mut i: usize = 0;
    assert(views.skip(0) =~= views);
    while i < n
        invariant
            n == pairs@.len(),
            views == pair_views(pairs@),
            wanted@ == key@,
            i <= n,
            first_value(views, key@) == first_value(views.skip(i as int), key@),
        decreases n - i,
    {
        assert(views.skip(i as int)[0] == views[i as int]);
        if pairs[i].0 == wanted {
            return Some(pairs[i].1.clone());
        }
        assert(views.skip(i as int).drop_first() =~= views.skip(i + 1));
        i = i + 1;
    }
    assert(views.skip(n as int).len() == 0);
    None
}

/// The token exchange client that a login callback at `url` gives: its
/// `code` query parameter, and the callback URL with path `/twitch_token`
/// and no query as the redirect.
pub open spec fn client_for(url: Seq<char>, secrets: Secrets, client: Client) -> bool {
    &&& url_query_pairs(url) is Some
    &&& Some(client.code@) == first_value(url_query_pairs(url)->0, "code"@)
    &&& url_with_path_without_query(url, "/twitch_token"@) == Some(client.redirect@)
    &&& client.client_id == secrets.client_id
    &&& client.client_secret == secrets.client_secret
    &&& client.token@ == Seq::<char>::empty()
}

/// Why a login callback URL gives no client: it does not parse, or it has
/// no `code` parameter.
pub open spec fn client_error(url: Seq<char>) -> Option<ClientError> {
    match url_query_pairs(url) {
        None => Some(ClientError::InvalidUrl),
        Some(pairs) => if first_value(pairs, "code"@) is None {
            Some(ClientError::NoToken)
        } else {
            None
        },
    }
}

impl Client {
    /// Prepares the token exchange from the login callback URL: refused when
    /// the URL does not parse or has no `code` parameter.
    pub fn new(url: &str, secrets: &Secrets) -> (r: Result<Client, ClientError>)
        ensures
            match client_error(url@) {
                Some(e) => r == Err::<Client, ClientError>(e),
                None => r matches Ok(client) && client_for(url@, *secrets, client),
            },
    {
        let pairs = match query_pairs(url) {
            Some(pairs) => pairs,
            None => return Err(ClientError::InvalidUrl),
        };
        let code = match find_value(&pairs, "code") {
            Some(code) => code,
            None => return Err(ClientError::NoToken),
        };
        let redirect = match with_path_without_query(url, "/twitch_token") {
            Some(u) => u,
            None => return Err(ClientError::InvalidUrl),
        };
        Ok(
            Client {
                redirect,
                client_id: secrets.client_id.clone(),
                client_secret: secrets.client_secret.clone(),
                code,
                token: String::new(),
            },
        )
    }
}

/// Whether `i` is the first position whose key is `key`.
pub open spec fn first_position(pairs: Seq<(Seq<char>, Seq<char>)>, key: Seq<char>, i: int) -> bool {
    &&& 0 <= i < pairs.len()
    &&& pairs[i].0 == key
    &&& forall|j: int| 0 <= j < i ==> pairs[j].0 != key
}

/// The value found for a key is the value of the first pair with that key,
/// wherever it stands among the pairs; there is none exactly when no pair has
/// the key.
pub proof fn first_value_is_first_match(pairs: Seq<(Seq<char>, Seq<char>)>, key: Seq<char>)
    ensures
        first_value(pairs, key) is None <==> forall|i: int|
            0 <= i < pairs.len() ==> pairs[i].0 != key,
        forall|i: int| #[trigger]
            first_position(pairs, key, i) ==> first_value(pairs, key) == Some(pairs[i].1),
        first_value(pairs, key) is Some ==> exists|i: int| #[trigger]
            first_position(pairs, key, i),
    decreases pairs.len(),
{
    if pairs.len() > 0 {
        let rest = pairs.drop_first();
        first_value_is_first_match(rest, key);
        if pairs[0].0 == key {
            assert(first_position(pairs, key, 0));
            assert forall|i: int| #[trigger] first_position(pairs, key, i) implies first_value(
                pairs,
                key,
            ) == Some(pairs[i].1) by {
                if i > 0 {
                    assert(pairs[0].0 != key);
                }
            }
        } else {
            assert forall|i: int| 0 <= i < rest.len() implies rest[i] == pairs[i + 1] by {}
            if first_value(rest, key) is None {
                assert forall|i: int| 0 <= i < pairs.len() implies pairs[i].0 != key by {
                    if i > 0 {
                        assert(pairs[i] == rest[i - 1]);
                    }
                }
            } else {
                let k = choose|k: int| #[trigger] first_position(rest, key, k);
                assert(first_position(pairs, key, k + 1)) by {
                    assert forall|j: int| 0 <= j < k + 1 implies pairs[j].0 != key by {
                        if j > 0 {
                            assert(pairs[j] == rest[j - 1]);
                        }
                    }
                }
            }
            assert forall|i: int| #[trigger] first_position(pairs, key, i) implies first_value(
                pairs,
                key,
            ) == Some(pairs[i].1) by {
                assert(i > 0);
                assert(first_position(rest, key, i - 1)) by {
                    assert forall|j: int| 0 <= j < i - 1 implies rest[j].0 != key by {
                        assert(rest[j] == pairs[j + 1]);
                    }
                }
            }
        }
    }
}

/// A login callback that parses gives a client exactly when some query pair
/// has the key `code`, and the client's code is the value of the first such
/// pair among all the pairs; the redirect is the callback URL with path
/// `/twitch_token` and no query, and the credentials are the secrets'.
pub proof fn client_takes_first_code(url: Seq<char>, secrets: Secrets, client: Client)
    ensures
        url_query_pairs(url) is None ==> client_error(url) == Some(ClientError::InvalidUrl),
        url_query_pairs(url) matches Some(pairs) ==> (client_error(url) is None <==> exists|i: int|
            0 <= i < pairs.len() && pairs[i].0 == "code"@),
        url_query_pairs(url) matches Some(pairs) ==> (client_error(url) is Some ==> client_error(
            url,
        ) == Some(ClientError::NoToken)),
        client_for(url, secrets, client) ==> (url_query_pairs(url) matches Some(pairs) && exists|
            i: int,
        |
            #![trigger pairs[i]]
            0 <= i < pairs.len() && pairs[i].0 == "code"@ && (forall|j: int|
                0 <= j < i ==> pairs[j].0 != "code"@) && client.code@ == pairs[i].1),
        client_for(url, secrets, client) ==> {
            &&& Some(client.redirect@) == url_with_path_without_query(url, "/twitch_token"@)
            &&& client.client_id == secrets.client_id
            &&& client.client_secret == secrets.client_secret
            &&& client.token@.len() == 0
        },
{
    if let Some(pairs) = url_query_pairs(url) {
        first_value_is_first_match(pairs, "code"@);
        if exists|i: int| 0 <= i < pairs.len() && pairs[i].0 == "code"@ {
            let i = choose|i: int| 0 <= i < pairs.len() && pairs[i].0 == "code"@;
            assert(first_value(pairs, "code"@) is Some);
        }
        if client_for(url, secrets, client) {
            let i = choose|i: int| #[trigger] first_position(pairs, "code"@, i);
            assert(pairs[i].1 == client.code@);
            assert(0 <= i < pairs.len() && pairs[i].0 == "code"@ && (forall|j: int|
                0 <= j < i ==> pairs[j].0 != "code"@) && client.code@ == pairs[i].1);
        }
    }
}

} // verus!

# pond_opener

A Cloudflare Worker that logs users in with Twitch and answers Twitch
EventSub webhooks, with its logic verified in Verus.

- `src/` is the verified library: the EventSub signature check
  (HMAC-SHA256 over message id, timestamp and body, lowercase hex), the
  reading of EventSub headers, the webhook's answers and replies (given what
  serde made of the body), the login callback and authorization URL, the OAuth request forms,
  and the user record's StreamElements token.
- `app/` is the worker around it: routing, requests to Twitch, the KV store,
  logging, and serde copies of the types that travel as JSON, which decode
  EventSub bodies and Twitch's answers.
- `tests/` runs the library on concrete messages, including the signed
  EventSub examples.

//! HTTP replies as plain values, and the `Content-Length` they carry.

use vstd::prelude::*;
use vstd::utf8::encode_utf8;

use crate::error::{webhook_code, webhook_message, Webhook};
use crate::text::{decimal, push_decimal};

verus! {

/// An HTTP reply: status, text body, and the `Content-Length` header when set.
#[derive(Debug)]
pub struct Reply {
    pub status: u16,
    pub body: String,
    pub content_length: Option<String>,
}

impl Reply {
    /// A `200 OK` reply with `body`.
    pub fn ok(body: String) -> (r: Reply)
        ensures
            r.status == 200,
            r.body == body,
            r.content_length is None,
    {
        Reply { status: 200, body, content_length: None }
    }

    /// An error reply with status `status` and text `message`.
    pub fn error(message: String, status: u16) -> (r: Reply)
        ensures
            r.status == status,
            r.body == message,
            r.content_length is None,
    {
        Reply { status, body: message, content_length: None }
    }

    /// The reply that answers a webhook error: the error's status code, and
    /// its debug text as the body.
    pub fn from(err: Webhook) -> (r: Reply)
        ensures
            r.status == webhook_code(err),
            r.body@ == webhook_message(err),
            r.content_length is None,
    {
        Reply::error(err.message(), err.code())
    }
}

/// The number of bytes of a text in UTF-8, as `str::len` reports it.
pub open spec fn byte_length(text: Seq<char>) -> usize {
    encode_utf8(text).len() as usize
}

/// Setting the `Content-Length` of a reply from its body.
pub trait Length: Sized {
    fn with_length(self) -> Self;
}

impl Length for Reply {
    /// Sets `Content-Length` to the byte length of the body, in decimal.
    fn with_length(self) -> (r: Reply)
        ensures
            r.status == self.status,
            r.body == self.body,
            r.content_length matches Some(length) && length@ == decimal(byte_length(self.body@) as nat),
    {
        let mut length = String::new();
        push_decimal(&mut length, self.body.as_str().len());
        Reply { status: self.status, body: self.body, content_length: Some(length) }
    }
}

/// The byte length of a text is the length of its UTF-8 encoding; an ASCII
/// text is as many bytes long as it has characters.
pub proof fn utf8_byte_length(text: Seq<char>)
    requires
        encode_utf8(text).len() <= usize::MAX,
    ensures
        byte_length(text) == encode_utf8(text).len(),
        vstd::utf8::is_ascii_chars(text) ==> byte_length(text) == text.len(),
{
    if vstd::utf8::is_ascii_chars(text) {
        vstd::utf8::is_ascii_chars_encode_utf8(text);
    }
}

} // verus!

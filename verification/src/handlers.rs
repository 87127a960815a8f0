//! Request handlers.

use vstd::prelude::*;

use crate::notifications::WebhookCallbackVerification;

verus! {

/// A fixed answer to a callback verification.
pub fn challenge_callback(body: WebhookCallbackVerification) -> (text: String)
    ensures
        text@ == "Pog"@,
{
    String::from_str("Pog")
}

} // verus!

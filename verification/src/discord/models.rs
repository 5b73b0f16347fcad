//! The webhook message body.
use vstd::prelude::*;

verus! {

/// The JSON body of a Discord webhook message.
#[derive(Clone, Debug)]
pub struct DiscordWebhookPayload {
    pub content: String,
}

} // verus!

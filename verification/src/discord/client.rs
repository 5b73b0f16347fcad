//! Where Discord messages go, and what is sent.
use vstd::prelude::*;
use crate::text::{blank, is_blank};
use super::models::DiscordWebhookPayload;

verus! {

/// The webhook a Discord client posts to; none when no URL is configured.
#[derive(Clone, Debug)]
pub struct DiscordClient {
    pub webhook_url: Option<String>,
}

/// The text of an error report.
pub open spec fn error_text(title: Seq<char>, error: Seq<char>) -> Seq<char> {
    "[오류 발생]\n"@ + title + "\n"@ + error
}

impl DiscordClient {
    /// A client for `webhook_url`; a blank URL means messages are skipped.
    pub fn new(webhook_url: String) -> (r: DiscordClient)
        ensures
            blank(webhook_url@) ==> r.webhook_url is None,
            !blank(webhook_url@) ==> r.webhook_url is Some && r.webhook_url->0@ == webhook_url@,
    {
        if is_blank(webhook_url.as_str()) {
            DiscordClient { webhook_url: None }
        } else {
            DiscordClient { webhook_url: Some(webhook_url) }
        }
    }

    /// Where and what to post for `content`; nothing when no webhook is configured, in
    /// which case the message is skipped.
    pub fn webhook_request(&self, content: &str) -> (r: Option<(String, DiscordWebhookPayload)>)
        ensures
            r is None <==> self.webhook_url is None,
            r matches Some((url, payload)) ==> url@ == self.webhook_url->0@ && payload.content@
                == content@,
    {
        match &self.webhook_url {
            None => None,
            Some(url) => Some((url.clone(), DiscordWebhookPayload { content: String::from_str(content) })),
        }
    }

    /// The message an error report sends.
    pub fn error_message(title: &str, error: &str) -> (r: String)
        ensures
            r@ == error_text(title@, error@),
    {
        let mut text = String::from_str("[오류 발생]\n");
        text.append(title);
        text.append("\n");
        text.append(error);
        text
    }
}

} // verus!

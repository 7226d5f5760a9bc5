//! Notices sent to a Discord webhook.

use vstd::prelude::*;

use crate::util::text::join;

verus! {

/// A Discord webhook to send notices to.
#[derive(Debug, Clone, PartialEq, Eq)]
pub struct DiscordWebhookMessage {
    webhook_url: String,
}

/// The colour of the bar beside a notice: green.
pub const EMBED_COLOR: u32 = 65280;

/// The status code of an answer that accepts a notice.
pub const STATUS_OK: u16 = 200;

/// What is posted to the webhook, as a JSON document: `content` at the top,
/// and one embed with `title`, `description` and `color`.
#[derive(Debug, Clone, PartialEq, Eq)]
pub struct WebhookPost {
    pub url: String,
    pub content_type: String,
    pub content: String,
    pub title: String,
    pub description: String,
    pub color: u32,
}

/// What the host reports while a notice is sent.
#[derive(Debug, Clone, PartialEq, Eq)]
pub enum SendEvent {
    Begin,
    /// The webhook answered with the status code `code`, which reads
    /// `status` when printed.
    Answered { code: u16, status: String },
}

/// What sending a notice asks for next.
#[derive(Debug, Clone, PartialEq, Eq)]
pub enum SendStep {
    /// Post this. If no answer comes, that failure is the result of sending;
    /// else report the answer as [`SendEvent::Answered`].
    Post(WebhookPost),
    /// Print this line. The notice counts as sent, whatever the answer was.
    Done(String),
}

impl DiscordWebhookMessage {
    /// The URL notices are posted to.
    pub closed spec fn url(&self) -> Seq<char> {
        self.webhook_url@
    }

    /// The webhook at `webhook_url`.
    pub fn new(webhook_url: String) -> (message: Self)
        ensures
            message.url() == webhook_url@,
    {
        Self { webhook_url }
    }

    /// Sends a notice with the text `content` and an embed made of `title`
    /// and `description`.
    pub fn send(&self, title: &str, description: &str, content: &str, event: SendEvent) -> (step:
        SendStep)
        ensures
            match event {
                SendEvent::Begin => step matches SendStep::Post(post) && post.url@ == self.url()
                    && post.content_type@ == "application/json"@ && post.content@ == content@
                    && post.title@ == title@ && post.description@ == description@ && post.color
                    == EMBED_COLOR,
                SendEvent::Answered { code, status } => step matches SendStep::Done(line) && line@
                    == if code == STATUS_OK {
                    "Message sent successfully!"@
                } else {
                    "Failed to send message: "@ + status@
                },
            },
    {
        match event {
            SendEvent::Begin => SendStep::Post(
                WebhookPost {
                    url: self.webhook_url.clone(),
                    content_type: String::from_str("application/json"),
                    content: String::from_str(content),
                    title: String::from_str(title),
                    description: String::from_str(description),
                    color: EMBED_COLOR,
                },
            ),
            SendEvent::Answered { code, status } => {
                if code == STATUS_OK {
                    SendStep::Done(String::from_str("Message sent successfully!"))
                } else {
                    SendStep::Done(join("Failed to send message: ", status.as_str()))
                }
            },
        }
    }
}

} // verus!

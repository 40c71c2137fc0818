//! Notifications to the owner's Slack workspace.
//!
//! A notification is a fallback text, a channel and a list of blocks. The
//! blocks are held as what they say, not as JSON: whoever sends the
//! notification writes them out, and escapes what needs escaping.

pub mod channel;

use vstd::prelude::*;
use vstd::string::*;
use crate::slack::channel::SlackChannel;
use crate::text::owned;

verus! {

/// A text inside a block.
#[derive(Debug, PartialEq, Eq)]
pub enum Element {
    /// Shown as it is (`plain_text`, with emoji).
    PlainText(String),
    /// Shown with Slack's markup (`mrkdwn`).
    Markdown(String),
}

/// A button that opens a URL.
#[derive(Debug, PartialEq, Eq)]
pub struct Button {
    pub text: String,
    pub value: String,
    pub url: String,
}

/// One block of a message.
#[derive(Debug, PartialEq, Eq)]
pub enum Block {
    /// A block that the client sent, as its JSON text.
    Raw(String),
    /// A `section` with one text.
    Section(Element),
    /// A `context` line of small texts.
    Context(Vec<Element>),
    Divider,
    /// An `actions` row of buttons.
    Actions(Vec<Button>),
}

/// A notification to send.
#[derive(Debug, PartialEq, Eq)]
pub struct SlackApiRequest {
    /// The fallback text, shown where blocks are not.
    pub text: String,
    pub channel: SlackChannel,
    pub blocks: Vec<Block>,
}

/// The words that say where a request to the notification endpoint came
/// from.
pub open spec fn origin_line(origin: Option<Seq<char>>) -> Seq<char> {
    match origin {
        Some(o) => "From "@ + o,
        None => "From unknown"@,
    }
}

/// The URL of the incoming webhook with the given key.
pub fn webhook_url(key: &str) -> (url: String)
    ensures
        url@ == "https://hooks.slack.com/services/"@ + key@,
{
    let mut url = owned("https://hooks.slack.com/services/");
    url.append(key);
    url
}

/// A notification that is only a text.
pub fn send_slack(text: &str, channel: SlackChannel) -> (req: SlackApiRequest)
    ensures
        req.text@ == text@,
        req.channel == channel,
        req.blocks@.len() == 0,
{
    SlackApiRequest { text: owned(text), channel, blocks: Vec::new() }
}

/// Completes a notification that a client asked for. A request without
/// blocks gets one that shows its text. Every request gets a last line that
/// says where it came from.
pub fn post_slack(request: SlackApiRequest, origin: Option<&str>) -> (req: SlackApiRequest)
    ensures
        req.text == request.text,
        req.channel == request.channel,
        request.blocks@.len() > 0 ==> req.blocks@.len() == request.blocks@.len() + 1 && req.blocks@.drop_last()
            == request.blocks@,
        request.blocks@.len() == 0 ==> req.blocks@.len() == 2 && (req.blocks@[0] matches Block::Section(
            Element::PlainText(t),
        ) && t@ == request.text@),
        req.blocks@.last() matches Block::Context(line) && line@.len() == 1 && (
        line@[0] matches Element::PlainText(t) && t@ == origin_line(
            match origin {
                Some(o) => Some(o@),
                None => None,
            },
        )),
{
    let mut request = request;
    let ghost blocks = request.blocks@;
    if request.blocks.len() == 0 {
        let shown = request.text.clone();
        request.blocks.push(Block::Section(Element::PlainText(shown)));
    }
    let mut from = owned("From ");
    match origin {
        Some(o) => from.append(o),
        None => from.append("unknown"),
    }
    proof {
        reveal_strlit("From ");
        reveal_strlit("unknown");
        reveal_strlit("From unknown");
        assert("From "@ + "unknown"@ =~= "From unknown"@);
    }
    let mut line: Vec<Element> = Vec::new();
    line.push(Element::PlainText(from));
    request.blocks.push(Block::Context(line));
    proof {
        if blocks.len() > 0 {
            assert(request.blocks@.drop_last() =~= blocks);
        }
    }
    request
}

} // verus!

//! The notification that tells the owner of a new guestbook entry.

use vstd::prelude::*;
use vstd::string::*;
use crate::guestbook::entry::Entry;
use crate::ident::{hyphenated, id_text};
use crate::slack::channel::SlackChannel;
use crate::slack::{Block, Button, Element, SlackApiRequest};
use crate::text::owned;

verus! {

/// A text that may be missing, with `N/A` in its place.
pub open spec fn or_na(text: Option<Seq<char>>) -> Seq<char> {
    match text {
        Some(t) => t,
        None => "N/A"@,
    }
}

/// The view of an optional text.
pub open spec fn opt_view(text: Option<String>) -> Option<Seq<char>> {
    match text {
        Some(t) => Some(t@),
        None => None,
    }
}

/// The fallback text of the notification.
pub open spec fn notice_text(entry: Entry) -> Seq<char> {
    "Guestbook entry from "@ + entry.name@ + ": "@ + entry.message@
}

/// Whether `line` is the small print of the notification: where the entry
/// came from, and the URL and email address that the visitor left.
pub open spec fn is_small_print(line: Seq<Element>, entry: Entry, peer: Option<Seq<char>>) -> bool {
    &&& line.len() == 3
    &&& line[0] matches Element::Markdown(t) && t@ == "From *"@ + or_na(peer) + "*"@
    &&& line[1] matches Element::Markdown(t) && t@ == "URL: *"@ + or_na(opt_view(entry.url)) + "*"@
    &&& line[2] matches Element::Markdown(t) && t@ == "Email: *"@ + or_na(opt_view(entry.email)) + "*"@
}

/// Whether `buttons` are the two buttons of the notification: one that
/// opens the guestbook, one that opens the deletion of the entry.
pub open spec fn is_button_row(buttons: Seq<Button>, entry: Entry) -> bool {
    &&& buttons.len() == 2
    &&& buttons[0].text@ == "View Online"@
    &&& buttons[0].value@ == "click_me_123"@
    &&& buttons[0].url@ == "https://jameslittle.me/guestbook"@
    &&& buttons[1].text@ == "Delete"@
    &&& buttons[1].value@ == "click_me_123"@
    &&& buttons[1].url@ == "https://api.jameslittle.me/"@ + hyphenated(entry.id) + "/delete"@
}

/// Whether `blocks` are the blocks of the notification for `entry`: the
/// name as a heading, the message, the small print, a divider, the buttons.
pub open spec fn is_notice(blocks: Seq<Block>, entry: Entry, peer: Option<Seq<char>>) -> bool {
    &&& blocks.len() == 5
    &&& blocks[0] matches Block::Section(Element::Markdown(t)) && t@ == "*"@ + entry.name@ + ":*"@
    &&& blocks[1] matches Block::Section(Element::PlainText(t)) && t@ == entry.message@
    &&& blocks[2] matches Block::Context(line) && is_small_print(line@, entry, peer)
    &&& blocks[3] is Divider
    &&& blocks[4] matches Block::Actions(buttons) && is_button_row(buttons@, entry)
}

/// Puts a text between two others.
fn wrap(before: &str, text: &str, after: &str) -> (s: String)
    ensures
        s@ == before@ + text@ + after@,
{
    let mut s = owned(before);
    s.append(text);
    s.append(after);
    s
}

/// A text that may be missing, with `N/A` in its place.
fn text_or_na<'a>(text: Option<&'a str>) -> (s: &'a str)
    ensures
        s@ == or_na(
            match text {
                Some(t) => Some(t@),
                None => None,
            },
        ),
{
    match text {
        Some(t) => t,
        None => "N/A",
    }
}

impl Entry {
    /// The notification for this entry, sent to the guestbook channel.
    /// `peer` is the address that the entry came from, if it is known.
    pub fn slack_api_request(&self, peer: Option<&str>) -> (req: SlackApiRequest)
        ensures
            req.text@ == notice_text(*self),
            req.channel == SlackChannel::JilGuestbook,
            is_notice(
                req.blocks@,
                *self,
                match peer {
                    Some(p) => Some(p@),
                    None => None,
                },
            ),
    {
        let mut text = wrap("Guestbook entry from ", self.name.as_str(), ": ");
        text.append(self.message.as_str());

        let url = match &self.url {
            Some(u) => Some(u.as_str()),
            None => None,
        };
        let email = match &self.email {
            Some(m) => Some(m.as_str()),
            None => None,
        };
        let mut small: Vec<Element> = Vec::new();
        small.push(Element::Markdown(wrap("From *", text_or_na(peer), "*")));
        small.push(Element::Markdown(wrap("URL: *", text_or_na(url), "*")));
        small.push(Element::Markdown(wrap("Email: *", text_or_na(email), "*")));

        let id = id_text(self.id);
        let mut buttons: Vec<Button> = Vec::new();
        buttons.push(
            Button {
                text: owned("View Online"),
                value: owned("click_me_123"),
                url: owned("https://jameslittle.me/guestbook"),
            },
        );
        buttons.push(
            Button {
                text: owned("Delete"),
                value: owned("click_me_123"),
                url: wrap("https://api.jameslittle.me/", id.as_str(), "/delete"),
            },
        );

        let mut blocks: Vec<Block> = Vec::new();
        blocks.push(Block::Section(Element::Markdown(wrap("*", self.name.as_str(), ":*"))));
        blocks.push(Block::Section(Element::PlainText(self.message.clone())));
        blocks.push(Block::Context(small));
        blocks.push(Block::Divider);
        blocks.push(Block::Actions(buttons));
        SlackApiRequest { text, channel: SlackChannel::JilGuestbook, blocks }
    }
}

} // verus!

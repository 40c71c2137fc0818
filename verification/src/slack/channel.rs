//! The channels that notifications go to.
//!
//! A channel has a name that people use (`general`) and an identifier that
//! Slack uses (`C75C3AW66`). Requests may name a channel either way; what is
//! sent to Slack is the identifier. A name that stands for none of the known
//! channels is kept as it is and sent as it is.

use vstd::prelude::*;
use vstd::string::*;
use crate::text::{owned, str_eq};

verus! {

#[derive(Clone, Debug, PartialEq, Eq)]
pub enum SlackChannel {
    General,
    JilDotIm,
    JilGuestbook,
    RRLFeedback,
    WeddingSite,
    Lights,
    /// A channel that is not one of the above, by whatever the request
    /// called it.
    Unknown(String),
}

/// A text that names no channel.
#[derive(Clone, Copy, Debug, PartialEq, Eq, Structural)]
pub struct ParseError;

impl SlackChannel {
    /// The identifier that Slack knows the channel by. For an unknown
    /// channel this is the word `Unknown`.
    pub open spec fn id(self) -> Seq<char> {
        match self {
            SlackChannel::General => "C75C3AW66"@,
            SlackChannel::JilDotIm => "CLVH6SLAZ"@,
            SlackChannel::JilGuestbook => "CVBH1GHSM"@,
            SlackChannel::RRLFeedback => "C01HFPUJGHZ"@,
            SlackChannel::WeddingSite => "C05QT3QPDNY"@,
            SlackChannel::Lights => "C069AFX67C5"@,
            SlackChannel::Unknown(_) => "Unknown"@,
        }
    }

    /// The name that people know the channel by.
    pub open spec fn name(self) -> Seq<char> {
        match self {
            SlackChannel::General => "general"@,
            SlackChannel::JilDotIm => "jil-dot-im"@,
            SlackChannel::JilGuestbook => "jil-guestbook"@,
            SlackChannel::RRLFeedback => "rrl-feedback"@,
            SlackChannel::WeddingSite => "wedding-site"@,
            SlackChannel::Lights => "lights"@,
            SlackChannel::Unknown(_) => "Unknown"@,
        }
    }

    /// Whether the channel is one of the known ones.
    pub open spec fn is_known(self) -> bool {
        !(self is Unknown)
    }

    /// Whether `text` is the identifier or the name of `self`.
    pub open spec fn answers_to(self, text: Seq<char>) -> bool {
        text == self.id() || text == self.name()
    }

    /// What is sent to Slack: the identifier of a known channel, and the
    /// text that an unknown channel was called by.
    pub open spec fn wire(self) -> Seq<char> {
        match self {
            SlackChannel::Unknown(s) => s@,
            _ => self.id(),
        }
    }

    /// The channel's identifier.
    pub fn to_string(&self) -> (s: String)
        ensures
            s@ == self.id(),
    {
        match self {
            SlackChannel::General => owned("C75C3AW66"),
            SlackChannel::JilDotIm => owned("CLVH6SLAZ"),
            SlackChannel::JilGuestbook => owned("CVBH1GHSM"),
            SlackChannel::RRLFeedback => owned("C01HFPUJGHZ"),
            SlackChannel::WeddingSite => owned("C05QT3QPDNY"),
            SlackChannel::Lights => owned("C069AFX67C5"),
            SlackChannel::Unknown(_) => owned("Unknown"),
        }
    }

    /// Reads a channel from its identifier or its name. The word `Unknown`
    /// reads as the unknown channel without a text. Anything else is an
    /// error.
    pub fn from_str(text: &str) -> (r: Result<SlackChannel, ParseError>)
        ensures
            match known_channel(text@) {
                Some(c) => r == Ok::<SlackChannel, ParseError>(c),
                None => if text@ == "Unknown"@ {
                    r matches Ok(SlackChannel::Unknown(s)) && s@.len() == 0
                } else {
                    r == Err::<SlackChannel, ParseError>(ParseError)
                },
            },
    {
        if str_eq(text, "C75C3AW66") || str_eq(text, "general") {
            Ok(SlackChannel::General)
        } else if str_eq(text, "CLVH6SLAZ") || str_eq(text, "jil-dot-im") {
            Ok(SlackChannel::JilDotIm)
        } else if str_eq(text, "CVBH1GHSM") || str_eq(text, "jil-guestbook") {
            Ok(SlackChannel::JilGuestbook)
        } else if str_eq(text, "C01HFPUJGHZ") || str_eq(text, "rrl-feedback") {
            Ok(SlackChannel::RRLFeedback)
        } else if str_eq(text, "C05QT3QPDNY") || str_eq(text, "wedding-site") {
            Ok(SlackChannel::WeddingSite)
        } else if str_eq(text, "C069AFX67C5") || str_eq(text, "lights") {
            Ok(SlackChannel::Lights)
        } else if str_eq(text, "Unknown") {
            Ok(SlackChannel::Unknown(String::new()))
        } else {
            Err(ParseError)
        }
    }

    /// Reads the channel of a request: a known channel by its identifier or
    /// name, and any other text as an unknown channel of that name.
    pub fn from_wire(text: String) -> (c: SlackChannel)
        ensures
            match known_channel(text@) {
                Some(k) => c == k,
                None => c matches SlackChannel::Unknown(s) && s@ == text@,
            },
    {
        match SlackChannel::from_str(text.as_str()) {
            Ok(SlackChannel::Unknown(_)) => SlackChannel::Unknown(text),
            Ok(c) => c,
            Err(_) => SlackChannel::Unknown(text),
        }
    }

    /// What is sent to Slack for the channel.
    pub fn wire_name(&self) -> (s: String)
        ensures
            s@ == self.wire(),
    {
        match self {
            SlackChannel::Unknown(s) => s.clone(),
            _ => self.to_string(),
        }
    }
}

impl Default for SlackChannel {
    fn default() -> (c: SlackChannel)
        ensures
            c == SlackChannel::General,
    {
        SlackChannel::General
    }
}

/// The known channel that a text names, by identifier or by name.
pub open spec fn known_channel(text: Seq<char>) -> Option<SlackChannel> {
    if SlackChannel::General.answers_to(text) {
        Some(SlackChannel::General)
    } else if SlackChannel::JilDotIm.answers_to(text) {
        Some(SlackChannel::JilDotIm)
    } else if SlackChannel::JilGuestbook.answers_to(text) {
        Some(SlackChannel::JilGuestbook)
    } else if SlackChannel::RRLFeedback.answers_to(text) {
        Some(SlackChannel::RRLFeedback)
    } else if SlackChannel::WeddingSite.answers_to(text) {
        Some(SlackChannel::WeddingSite)
    } else if SlackChannel::Lights.answers_to(text) {
        Some(SlackChannel::Lights)
    } else {
        None
    }
}

/// No two known channels share an identifier or a name, and none of them is
/// called `Unknown`.
pub proof fn lemma_names_distinct()
    ensures
        forall|a: SlackChannel, b: SlackChannel, text: Seq<char>|
            a.answers_to(text) && b.answers_to(text) && a.is_known() ==> a == b,
{
    reveal_strlit("C75C3AW66");
    reveal_strlit("CLVH6SLAZ");
    reveal_strlit("CVBH1GHSM");
    reveal_strlit("C01HFPUJGHZ");
    reveal_strlit("C05QT3QPDNY");
    reveal_strlit("C069AFX67C5");
    reveal_strlit("general");
    reveal_strlit("jil-dot-im");
    reveal_strlit("jil-guestbook");
    reveal_strlit("rrl-feedback");
    reveal_strlit("wedding-site");
    reveal_strlit("lights");
    reveal_strlit("Unknown");
    assert forall|a: SlackChannel, b: SlackChannel, text: Seq<char>|
        a.answers_to(text) && b.answers_to(text) && a.is_known() implies a == b by {
        // no two of the identifiers and names agree in length and in their
        // first three characters
        let length = text.len();
        let first = text[0];
        let second = text[1];
        let third = text[2];
    }
}

/// A known channel is read back from its identifier and from its name.
pub proof fn lemma_known_channel_round_trip(c: SlackChannel)
    requires
        c.is_known(),
    ensures
        c.answers_to(c.id()),
        c.answers_to(c.name()),
        known_channel(c.id()) == Some(c),
        known_channel(c.name()) == Some(c),
{
    lemma_names_distinct();
    assert(c.answers_to(c.id()));
    assert(c.answers_to(c.name()));
    assert(SlackChannel::General.answers_to(c.id()) ==> c == SlackChannel::General);
    assert(SlackChannel::JilDotIm.answers_to(c.id()) ==> c == SlackChannel::JilDotIm);
    assert(SlackChannel::JilGuestbook.answers_to(c.id()) ==> c == SlackChannel::JilGuestbook);
    assert(SlackChannel::RRLFeedback.answers_to(c.id()) ==> c == SlackChannel::RRLFeedback);
    assert(SlackChannel::WeddingSite.answers_to(c.id()) ==> c == SlackChannel::WeddingSite);
    assert(SlackChannel::Lights.answers_to(c.id()) ==> c == SlackChannel::Lights);
    assert(SlackChannel::General.answers_to(c.name()) ==> c == SlackChannel::General);
    assert(SlackChannel::JilDotIm.answers_to(c.name()) ==> c == SlackChannel::JilDotIm);
    assert(SlackChannel::JilGuestbook.answers_to(c.name()) ==> c == SlackChannel::JilGuestbook);
    assert(SlackChannel::RRLFeedback.answers_to(c.name()) ==> c == SlackChannel::RRLFeedback);
    assert(SlackChannel::WeddingSite.answers_to(c.name()) ==> c == SlackChannel::WeddingSite);
    assert(SlackChannel::Lights.answers_to(c.name()) ==> c == SlackChannel::Lights);
}

} // verus!

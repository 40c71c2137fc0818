//! The office light: which colours it takes, and who asked.

use vstd::prelude::*;
use vstd::string::*;
use crate::error::ApiError;
use crate::ipinfo::IpInfo;
use crate::slack::channel::SlackChannel;
use crate::slack::SlackApiRequest;
use crate::text::{owned, str_eq};

verus! {

/// The colours that the light takes, as a request names them.
pub open spec fn colors() -> Seq<Seq<char>> {
    seq!["red"@, "green"@, "blue"@, "yellow"@, "purple"@, "white"@, "off"@]
}

/// The colours that the light takes.
pub fn valid_colors() -> (v: Vec<&'static str>)
    ensures
        v@.len() == 7,
        forall|i: int| 0 <= i < 7 ==> (#[trigger] v@[i])@ == colors()[i],
{
    vec!["red", "green", "blue", "yellow", "purple", "white", "off"]
}

/// Whether the light takes the colour `color`.
pub fn is_valid_color(color: &str) -> (b: bool)
    ensures
        b == colors().contains(color@),
{
    let all = valid_colors();
    let mut i: usize = 0;
    while i < all.len()
        invariant
            i <= all.len(),
            all@.len() == 7,
            forall|j: int| 0 <= j < 7 ==> (#[trigger] all@[j])@ == colors()[j],
            forall|j: int| 0 <= j < i ==> colors()[j] != color@,
        decreases all.len() - i,
    {
        if str_eq(all[i], color) {
            assert(colors()[i as int] == color@);
            return true;
        }
        i += 1;
    }
    false
}

/// Checks the colour of a request to set the light. A request without a
/// colour, or with one that the light does not take, is refused.
pub fn requested_color(color: Option<&str>) -> (r: Result<String, ApiError>)
    ensures
        match color {
            Some(c) if colors().contains(c@) => r matches Ok(s) && s@ == c@,
            _ => r matches Err(e) && e.status_code == 400 && e.message@ == "Invalid color"@,
        },
{
    match color {
        Some(c) => {
            if is_valid_color(c) {
                Ok(owned(c))
            } else {
                Err(ApiError::bad_request("Invalid color"))
            }
        },
        None => Err(ApiError::bad_request("Invalid color")),
    }
}

/// The words that report a request to set the light.
pub open spec fn light_notice_text(color: Option<Seq<char>>, attribution: Option<Seq<char>>) -> Seq<char> {
    (match color {
        Some(c) => c,
        None => "no color"@,
    }) + ": "@ + (match attribution {
        Some(a) => a,
        None => "no ip"@,
    })
}

/// The notification that reports a request to set the light, whether or
/// not the request is then carried out.
pub fn light_notice(color: Option<&str>, attribution: Option<&str>) -> (req: SlackApiRequest)
    ensures
        req.text@ == light_notice_text(
            match color {
                Some(c) => Some(c@),
                None => None,
            },
            match attribution {
                Some(a) => Some(a@),
                None => None,
            },
        ),
        req.channel == SlackChannel::Lights,
        req.blocks@.len() == 0,
{
    let mut text = match color {
        Some(c) => owned(c),
        None => owned("no color"),
    };
    text.append(": ");
    match attribution {
        Some(a) => text.append(a),
        None => text.append("no ip"),
    }
    SlackApiRequest { text, channel: SlackChannel::Lights, blocks: Vec::new() }
}

/// The URL that runs a shortcut of the home automation.
pub fn pushcut_url(key: &str) -> (url: String)
    ensures
        url@ == "https://api.pushcut.io/"@ + key@ + "/execute"@,
{
    let mut url = owned("https://api.pushcut.io/");
    url.append(key);
    url.append("/execute");
    url
}

/// The words that say where a request came from.
pub open spec fn attribution(ip: Seq<char>, info: Option<IpInfo>) -> Seq<char> {
    match info {
        Some(i) => ip + " ("@ + i.place() + ")"@,
        None => ip + " (No info)"@,
    }
}

/// Says where a request came from: its address and, where known, the place
/// that the address belongs to.
pub fn ip_attribution(ip: &str, info: Option<&IpInfo>) -> (s: String)
    ensures
        s@ == attribution(ip@, match info {
            Some(i) => Some(*i),
            None => None,
        }),
{
    let mut s = owned(ip);
    match info {
        Some(i) => {
            let place = i.loc_to_string();
            s.append(" (");
            s.append(place.as_str());
            s.append(")");
        },
        None => {
            s.append(" (No info)");
        },
    }
    s
}

} // verus!

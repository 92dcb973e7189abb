//! The chat commands' replies: what each handler says, computed from plain
//! values. Sending the reply over the gateway happens outside this crate.

use vstd::prelude::*;
use crate::decimal::spec_decimal;
use crate::decimal::u64_to_decimal;
use crate::uptime::elapsed_string;
use crate::uptime::spec_elapsed_string;

verus! {

/// The accent colour every embed reply uses.
pub const EMBED_COLOR: u32 = 0x7289DA;

/// What an embed reply carries: a title, a body, and an accent colour.
pub struct Embed {
    pub title: String,
    pub description: String,
    pub color: u32,
}

/// The ping command's reply for the shard the invoking message arrived on.
pub open spec fn spec_ping_reply(shard_id: u64) -> Seq<char> {
    "Pong! Shard: "@ + spec_decimal(shard_id as int)
}

/// Computes the ping command's reply. The reply always carries the caller's
/// numeric shard id, rendered in decimal after the fixed prefix.
pub fn ping_reply(shard_id: u64) -> (r: String)
    ensures
        r@ == spec_ping_reply(shard_id),
{
    let mut s = String::from_str("Pong! Shard: ");
    let num = u64_to_decimal(shard_id);
    s.append(num.as_str());
    proof {
        assert(s@ =~= spec_ping_reply(shard_id));
    }
    s
}

/// Computes the uptime command's embed for `secs` elapsed seconds.
pub fn uptime_embed(secs: u64) -> (r: Embed)
    ensures
        r.title@ == "Uptime"@,
        r.description@ == spec_elapsed_string(secs as int),
        r.color == EMBED_COLOR,
{
    Embed {
        title: String::from_str("Uptime"),
        description: elapsed_string(secs),
        color: EMBED_COLOR,
    }
}

/// The text of the about embed's info field for a given package version.
pub open spec fn spec_about_info(version: Seq<char>) -> Seq<char> {
    "Bot v"@ + version + ". Serenity: 0.10"@
}

/// The author icon a reply shows: the author's own avatar where one is set,
/// else the default avatar.
pub open spec fn spec_author_icon(avatar_url: Option<Seq<char>>, default_url: Seq<char>) -> Seq<
    char,
> {
    match avatar_url {
        Some(u) => u,
        None => default_url,
    }
}

/// What the about command's embed carries beside the fixed title and body:
/// the info field's text and the invoking author's name and icon.
pub struct AboutEmbed {
    pub embed: Embed,
    pub info: String,
    pub author_name: String,
    pub author_icon_url: String,
}

/// Computes the about command's embed: a fixed title and body, an info field
/// naming the bot's version, and the invoking author's name with their
/// avatar, falling back to the default avatar where none is set.
pub fn about_embed(version: &str, author_name: String, avatar_url: Option<String>, default_url: String) -> (r:
    AboutEmbed)
    ensures
        r.embed.title@ == "About this bot"@,
        r.embed.description@ == "A simple discord bot. Built using Rust!"@,
        r.embed.color == EMBED_COLOR,
        r.info@ == spec_about_info(version@),
        r.author_name == author_name,
        r.author_icon_url@ == spec_author_icon(
            match avatar_url {
                Some(u) => Some(u@),
                None => None,
            },
            default_url@,
        ),
{
    let mut info = String::from_str("Bot v");
    info.append(version);
    info.append(". Serenity: 0.10");
    let icon = match avatar_url {
        Some(u) => u,
        None => default_url,
    };
    proof {
        assert(info@ =~= spec_about_info(version@));
    }
    AboutEmbed {
        embed: Embed {
            title: String::from_str("About this bot"),
            description: String::from_str("A simple discord bot. Built using Rust!"),
            color: EMBED_COLOR,
        },
        info,
        author_name,
        author_icon_url: icon,
    }
}

} // verus!

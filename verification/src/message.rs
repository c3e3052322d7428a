//! The fixed pieces of a change announcement, and its description text.
//!
//! A change message carries a fixed title, a fixed sender name, and a
//! description that embeds the new game, the stream title, and the
//! canonical link back to the channel.

use vstd::prelude::*;

verus! {

/// The fixed title of every change announcement.
pub fn message_title() -> (t: &'static str)
    ensures
        t@ == "GDQ hype!"@,
{
    "GDQ hype!"
}

/// The fixed sender display name of every change announcement.
pub fn sender_username() -> (u: &'static str)
    ensures
        u@ == "GDQBot"@,
{
    "GDQBot"
}

/// The base of the canonical link back to a channel.
pub fn channel_base_url() -> (u: &'static str)
    ensures
        u@ == "https://www.twitch.tv/"@,
{
    "https://www.twitch.tv/"
}

/// The key under which the last known game is persisted.
pub fn store_key() -> (k: &'static str)
    ensures
        k@ == "gdq_game"@,
{
    "gdq_game"
}

/// The description of a change announcement: the new game in bold, the
/// stream title in italics, and the canonical link to the channel.
pub fn change_description(game: &str, stream_title: &str, channel_name: &str) -> (r: String)
    ensures
        r@ == "Game changed to **"@ + game@ + "**\n*"@ + stream_title@ + "*\n"@
            + "https://www.twitch.tv/"@ + channel_name@,
{
    let mut r = String::from_str("Game changed to **");
    r.append(game);
    r.append("**\n*");
    r.append(stream_title);
    r.append("*\n");
    r.append("https://www.twitch.tv/");
    r.append(channel_name);
    proof {
        assert(r@ =~= "Game changed to **"@ + game@ + "**\n*"@ + stream_title@ + "*\n"@
            + "https://www.twitch.tv/"@ + channel_name@);
    }
    r
}

} // verus!

//! Text the bot's notices are built from.
//!
//! The runtime wraps these in its message embeds; the parts with actual
//! structure - the track-length clock, the skip announcement, the avatar
//! address - are built and specified here.
use vstd::prelude::*;

use crate::text::spec_dec;
use crate::text::u64_to_string;

verus! {

/// A number padded with a leading zero to at least two digits.
pub open spec fn spec_pad2(n: int) -> Seq<char> {
    if 0 <= n < 10 {
        seq!['0'] + spec_dec(n)
    } else {
        spec_dec(n)
    }
}

/// A track length in milliseconds written as a clock: hours, minutes and
/// seconds, each two digits at least, with the hours part only when it is
/// not zero.
pub open spec fn spec_duration(ms: int) -> Seq<char> {
    let total = ms / 1000;
    let h = total / 3600;
    let m = (total % 3600) / 60;
    let s = total % 60;
    if h > 0 {
        spec_pad2(h) + ":"@ + spec_pad2(m) + ":"@ + spec_pad2(s)
    } else {
        spec_pad2(m) + ":"@ + spec_pad2(s)
    }
}

/// `n` in decimal, zero-padded to at least two digits.
fn pad2(n: u32) -> (r: String)
    ensures
        r@ == spec_pad2(n as int),
{
    let digits = u64_to_string(n as u64);
    if n < 10 {
        let mut r = String::from_str("0");
        r.append(digits.as_str());
        proof {
            reveal_strlit("0");
            assert(("0")@ =~= seq!['0']);
        }
        r
    } else {
        digits
    }
}

/// A track length in milliseconds written as a clock.
pub fn format_duration(ms: u32) -> (r: String)
    ensures
        r@ == spec_duration(ms as int),
{
    let total = ms / 1000;
    let hours = total / 3600;
    let minutes = (total % 3600) / 60;
    let seconds = total % 60;
    let mut r = String::new();
    if hours > 0 {
        r.append(pad2(hours).as_str());
        r.append(":");
    }
    r.append(pad2(minutes).as_str());
    r.append(":");
    r.append(pad2(seconds).as_str());
    r
}

/// The announcement for a skipped track: its title and who skipped it.
pub fn skip_notice(title: &str, username: &str) -> (r: String)
    ensures
        r@ == title@ + " has been skipped by @"@ + username@,
{
    let mut r = String::from_str(title);
    r.append(" has been skipped by @");
    r.append(username);
    r
}

/// The avatar address for a user: the avatar hash under the user's
/// identifier, as an animation when the hash marks one.
pub fn avatar_url(user_id: u64, hash: &str, animated: bool) -> (r: String)
    ensures
        r@ == "https://cdn.discordapp.com/avatars/"@ + spec_dec(user_id as int) + "/"@ + hash@
            + "."@ + (if animated {
            "gif"@
        } else {
            "png"@
        }),
{
    let mut r = String::from_str("https://cdn.discordapp.com/avatars/");
    r.append(u64_to_string(user_id).as_str());
    r.append("/");
    r.append(hash);
    r.append(".");
    if animated {
        r.append("gif");
    } else {
        r.append("png");
    }
    r
}

} // verus!

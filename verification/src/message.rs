//! Command dispatch: which command a chat message invokes.
//!
//! The dispatcher matches the lowercased message content against the
//! command prefixes; the argument split of the play command, though, works
//! on the content as typed.
use vstd::prelude::*;

use crate::text::spec_starts_with;
use crate::text::spec_trim;
use crate::text::starts_with_str;
use crate::text::trim_str;

verus! {

/// The commands the bot answers to.
#[derive(PartialEq, Eq, Structural, Clone, Copy, Debug)]
pub enum Command {
    Ping,
    Join,
    Leave,
    Play,
    Pause,
    Resume,
    Skip,
    Volume,
}

/// The command a (lowercased) message content invokes: the first command
/// prefix it begins with, in dispatch order.
pub open spec fn spec_parse_command(s: Seq<char>) -> Option<Command> {
    if spec_starts_with(s, "pb!ping"@) {
        Some(Command::Ping)
    } else if spec_starts_with(s, "pb!join"@) {
        Some(Command::Join)
    } else if spec_starts_with(s, "pb!leave"@) {
        Some(Command::Leave)
    } else if spec_starts_with(s, "pb!play"@) {
        Some(Command::Play)
    } else if spec_starts_with(s, "pb!pause"@) {
        Some(Command::Pause)
    } else if spec_starts_with(s, "pb!resume"@) {
        Some(Command::Resume)
    } else if spec_starts_with(s, "pb!skip"@) {
        Some(Command::Skip)
    } else if spec_starts_with(s, "pb!volume"@) {
        Some(Command::Volume)
    } else {
        None
    }
}

/// Dispatches a message: `content` is the message text, lowercased by the
/// caller, and the result is the command it invokes, if any.
pub fn parse_command(content: &str) -> (r: Option<Command>)
    ensures
        r == spec_parse_command(content@),
{
    if starts_with_str(content, "pb!ping") {
        Some(Command::Ping)
    } else if starts_with_str(content, "pb!join") {
        Some(Command::Join)
    } else if starts_with_str(content, "pb!leave") {
        Some(Command::Leave)
    } else if starts_with_str(content, "pb!play") {
        Some(Command::Play)
    } else if starts_with_str(content, "pb!pause") {
        Some(Command::Pause)
    } else if starts_with_str(content, "pb!resume") {
        Some(Command::Resume)
    } else if starts_with_str(content, "pb!skip") {
        Some(Command::Skip)
    } else if starts_with_str(content, "pb!volume") {
        Some(Command::Volume)
    } else {
        None
    }
}

/// The argument text of a play request: what follows the play prefix in the
/// content as typed, trimmed; empty when the exact prefix is absent (the
/// dispatch is case-insensitive, the argument split is not).
pub fn play_args(content: &str) -> (r: String)
    ensures
        spec_starts_with(content@, "pb!play"@) ==> r@ == spec_trim(
            content@.skip("pb!play"@.len() as int),
        ),
        !spec_starts_with(content@, "pb!play"@) ==> r@ == Seq::<char>::empty(),
{
    if starts_with_str(content, "pb!play") {
        let pat_len = "pb!play".unicode_len();
        let len = content.unicode_len();
        let rest = content.substring_char(pat_len, len);
        proof {
            assert(content@.subrange("pb!play"@.len() as int, content@.len() as int)
                =~= content@.skip("pb!play"@.len() as int));
        }
        trim_str(rest)
    } else {
        let r = String::new();
        proof {
            assert(r@ =~= Seq::<char>::empty());
        }
        r
    }
}

} // verus!

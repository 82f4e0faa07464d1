//! The join and leave commands.
//!
//! Joining requires the requester to stand in a discoverable voice channel
//! and is a no-op when a session already exists; the transport itself is
//! opened by the runtime, which then registers the session. Leaving removes
//! the session unconditionally; the runtime also tears the transport down.
use vstd::prelude::*;

use crate::registry::BotMusicState;

verus! {

/// What the join command decided.
#[derive(PartialEq, Eq, Structural, Clone, Copy, Debug)]
pub enum JoinPlan {
    /// The requester is not in a discoverable voice channel: announce that
    /// instead of joining.
    NoVoiceChannel,
    /// A session already exists for this guild: nothing to do.
    AlreadyJoined,
    /// Open a transport to this channel; on success, register the session
    /// and arm the disconnect handler on the transport.
    Connect { channel_id: u64 },
}

/// The join command's decision, given the voice channel the requesting user
/// was discovered in (if any).
pub fn plan_join(state: &BotMusicState, guild_id: u64, user_channel: Option<u64>) -> (r: JoinPlan)
    requires
        state.wf(),
    ensures
        user_channel is None ==> r == JoinPlan::NoVoiceChannel,
        user_channel is Some && state.spec_contains(guild_id) ==> r == JoinPlan::AlreadyJoined,
        user_channel is Some && !state.spec_contains(guild_id) ==> r == (JoinPlan::Connect {
            channel_id: user_channel->0,
        }),
{
    match user_channel {
        None => JoinPlan::NoVoiceChannel,
        Some(channel_id) => {
            if state.get_session(guild_id).is_some() {
                JoinPlan::AlreadyJoined
            } else {
                JoinPlan::Connect { channel_id }
            }
        },
    }
}

/// The leave command's registry half: removes this guild's session
/// unconditionally (idempotent when none exists) and touches no other
/// guild's session. The runtime also removes the transport from the voice
/// manager.
pub fn leave(state: &mut BotMusicState, guild_id: u64) -> (removed: bool)
    requires
        old(state).wf(),
    ensures
        final(state).wf(),
        removed == old(state).spec_contains(guild_id),
        !removed ==> *final(state) == *old(state),
        !final(state).spec_contains(guild_id),
        forall|g: u64|
            g != guild_id ==> #[trigger] final(state).spec_get(g) == old(state).spec_get(g),
        forall|g: u64|
            g != guild_id ==> #[trigger] final(state).spec_contains(g) == old(
                state,
            ).spec_contains(g),
{
    state.remove_session(guild_id)
}

} // verus!

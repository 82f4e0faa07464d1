//! Playback lifecycle transitions.
//!
//! The voice transport fires callbacks when a track ends, when a freshly
//! activated track becomes playable, and when the voice link drops. Each
//! callback holds only a non-owning reference to the shared registry and
//! looks its session up by guild identifier when it fires; the functions
//! here are those lookups and transitions, as decisions over plain state.
//! The runtime performs what the returned outcome asks for (re-arming the
//! callbacks on the new handle, or emitting a notification).
use vstd::prelude::*;

use crate::queue::QueuedTrack;
use crate::queue::VoiceChannelMusicState;
use crate::queue::spec_advance;
use crate::queue::spec_current;
use crate::registry::BotMusicState;

verus! {

/// What an end-of-track firing resulted in, and what the runtime must do.
#[derive(PartialEq, Eq, Structural, Clone, Copy, Debug)]
pub enum EndOfTrackOutcome {
    /// The session no longer exists: the callback is stale and nothing was
    /// touched.
    Stale,
    /// The session exists but no track was loaded: nothing was touched.
    NotPlaying,
    /// The queue advanced and the next track was activated: the runtime must
    /// start playback for this handle and re-arm the lifecycle callbacks on
    /// it.
    Activated { handle: u64 },
    /// The queue advanced but nothing is ready to play (exhausted, never
    /// resolved, or already consumed): the runtime should announce that
    /// nothing is up next. The session waits for a new enqueue.
    NothingNext,
}

/// How one voice channel's state before an end-of-track transition relates
/// to the state after it: the loaded track is cleared, the cursor advances,
/// and the new current entry is activated if it has a source ready.
pub open spec fn end_transition_relates(
    pre: VoiceChannelMusicState,
    post: VoiceChannelMusicState,
    r: EndOfTrackOutcome,
) -> bool {
    let c = spec_advance(pre.index_playing as int);
    let cur = spec_current(pre.queue@, c);
    &&& post.call == pre.call
    &&& post.volume == pre.volume
    &&& post.index_playing as int == c
    &&& if pre.call is Some && cur is Some && cur->0.resolved is Some {
        let src = cur->0.resolved->0;
        &&& post.queue@ == pre.queue@.update(c, QueuedTrack { url: cur->0.url, resolved: None })
        &&& post.now_playing == Some((src.handle, src.metadata))
        &&& r == (EndOfTrackOutcome::Activated { handle: src.handle })
    } else {
        &&& post.queue@ == pre.queue@
        &&& post.now_playing is None
        &&& r == EndOfTrackOutcome::NothingNext
    }
}

/// The end-of-track transition.
///
/// Fired by the transport when a track finishes or is stopped. If the
/// session has been removed from the registry in the meantime, the stale
/// callback touches nothing. If nothing was loaded, nothing happens either.
/// Otherwise the loaded track is cleared, the queue advances by one, and the
/// new current entry is activated: its handle is returned for the runtime to
/// re-arm callbacks on, or `NothingNext` says that a "nothing up next"
/// notification is due.
pub fn on_track_end(state: &mut BotMusicState, guild_id: u64) -> (r: EndOfTrackOutcome)
    requires
        old(state).wf(),
    ensures
        final(state).wf(),
        !old(state).spec_contains(guild_id) ==> *final(state) == *old(state) && r
            == EndOfTrackOutcome::Stale,
        old(state).spec_contains(guild_id) && old(state).spec_get(
            guild_id,
        )->0.voice_state.now_playing is None ==> *final(state) == *old(state) && r
            == EndOfTrackOutcome::NotPlaying,
        old(state).spec_contains(guild_id) && old(state).spec_get(
            guild_id,
        )->0.voice_state.now_playing is Some ==> ({
            let pre_s = old(state).spec_get(guild_id)->0;
            &&& final(state).spec_get(guild_id) matches Some(post_s)
            &&& post_s.guild_id == pre_s.guild_id
            &&& post_s.channel_id == pre_s.channel_id
            &&& end_transition_relates(pre_s.voice_state, post_s.voice_state, r)
        }),
        forall|g: u64|
            g != guild_id ==> #[trigger] final(state).spec_get(g) == old(state).spec_get(g),
        forall|g: u64|
            g != guild_id ==> #[trigger] final(state).spec_contains(g) == old(
                state,
            ).spec_contains(g),
{
    let found = state.index_of(guild_id);
    match found {
        None => EndOfTrackOutcome::Stale,
        Some(i) => {
            proof {
                state.lemma_get_at(guild_id, i as int);
            }
            if state.music_sessions[i].1.voice_state.now_playing.is_none() {
                return EndOfTrackOutcome::NotPlaying;
            }
            let mut entry = state.music_sessions.remove(i);
            entry.1.voice_state.now_playing = None;
            entry.1.voice_state.advance();
            let res = entry.1.voice_state.playing_track();
            let ghost entry_after = entry;
            state.music_sessions.insert(i, entry);
            proof {
                let pre = *old(state);
                assert(state.music_sessions@ =~= pre.music_sessions@.update(
                    i as int,
                    entry_after,
                ));
                assert forall|a: int, b: int|
                    0 <= a < b < state.music_sessions@.len() implies state.music_sessions@[a].0
                    != state.music_sessions@[b].0 by {
                    assert(state.music_sessions@[a].0 == pre.music_sessions@[a].0);
                    assert(state.music_sessions@[b].0 == pre.music_sessions@[b].0);
                }
                assert forall|g: u64| g != guild_id implies #[trigger] state.spec_get(g)
                    == pre.spec_get(g) by {
                    BotMusicState::lemma_update_preserves_other(pre, *state, guild_id, i as int, g);
                }
                assert forall|g: u64|
                    g != guild_id implies #[trigger] state.spec_contains(g) == pre.spec_contains(
                    g,
                ) by {
                    assert(state.spec_get(g) == pre.spec_get(g));
                }
                state.lemma_get_at(guild_id, i as int);
            }
            match res {
                Some(handle) => EndOfTrackOutcome::Activated { handle },
                None => EndOfTrackOutcome::NothingNext,
            }
        },
    }
}

/// The "became playable" notification.
///
/// Fired once a newly activated track's audio is ready. Reads the loaded
/// track's metadata and returns the title to announce; nothing is announced
/// (and nothing changes - the state is only read) when the session is gone,
/// no track is loaded, or the track carries no metadata. A track with
/// metadata but no title is announced under a placeholder title.
pub fn on_track_playable(state: &BotMusicState, guild_id: u64) -> (r: Option<String>)
    requires
        state.wf(),
    ensures
        state.spec_get(guild_id) is None ==> r is None,
        state.spec_get(guild_id) matches Some(s) ==> match s.voice_state.now_playing {
            Some(np) => match np.1 {
                Some(meta) => match meta.title {
                    Some(t) => r matches Some(x) && x@ == t@,
                    None => r matches Some(x) && x@ == "Unknown"@,
                },
                None => r is None,
            },
            None => r is None,
        },
{
    match state.get_session(guild_id) {
        None => None,
        Some(session) => match &session.voice_state.now_playing {
            Some(np) => match &np.1 {
                Some(meta) => match &meta.title {
                    Some(t) => Some(t.clone()),
                    None => Some(String::from_str("Unknown")),
                },
                None => None,
            },
            None => None,
        },
    }
}

} // verus!

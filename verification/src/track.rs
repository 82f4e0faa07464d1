//! The play / pause / resume / skip commands.
//!
//! A play request names a catalog track link; its identifier is extracted
//! here, the runtime fetches the descriptor and finds a playable source, and
//! [`play_enqueued`] performs the whole session mutation: enqueue, and
//! activate when nothing is playing. Pause, resume and skip are decisions
//! over the registry: which handle the runtime must act on, and what to
//! announce.
use vstd::prelude::*;

use crate::queue::QueuedTrack;
use crate::queue::ResolvedSource;
use crate::queue::TrackMetadata;
use crate::queue::VoiceChannelMusicState;
use crate::queue::spec_current;
use crate::registry::BotMusicState;
use crate::spotify::SpotifyTrackItem;
use crate::text::find_str;
use crate::text::lemma_find_sub_at_props;
use crate::text::spec_contains_sub;
use crate::text::spec_find;
use crate::text::contains_str;

verus! {

/// A fetched track descriptor, tagged by the catalog it came from.
#[derive(Debug)]
pub enum MediaTrack {
    Spotify(SpotifyTrackItem),
}

/// The track identifier a pasted link carries: the piece between the first
/// track-path marker and the next one (or the end), cut at the first query
/// separator. `None` when the link carries no track-path marker.
pub open spec fn spec_extract_track_id(s: Seq<char>) -> Option<Seq<char>> {
    match spec_find(s, "/track/"@) {
        None => None,
        Some(i) => {
            let rest = s.subrange(i + "/track/"@.len(), s.len() as int);
            let seg = match spec_find(rest, "/track/"@) {
                None => rest,
                Some(j) => rest.subrange(0, j),
            };
            let id = match spec_find(seg, "?"@) {
                None => seg,
                Some(k) => seg.subrange(0, k),
            };
            Some(id)
        },
    }
}

/// Pulls the track identifier out of a pasted catalog link.
pub fn extract_track_id(url: &str) -> (r: Option<String>)
    ensures
        match r {
            Some(id) => spec_extract_track_id(url@) == Some(id@),
            None => spec_extract_track_id(url@) is None,
        },
{
    let pat = "/track/";
    let pat_len = pat.unicode_len();
    match find_str(url, pat) {
        None => None,
        Some(i) => {
            proof {
                lemma_find_sub_at_props(url@, pat@, 0, i as int);
            }
            let url_len = url.unicode_len();
            let rest = url.substring_char(i + pat_len, url_len);
            let rest_len = rest.unicode_len();
            let end = match find_str(rest, pat) {
                Some(j) => {
                    proof {
                        lemma_find_sub_at_props(rest@, pat@, 0, j as int);
                    }
                    j
                },
                None => rest_len,
            };
            proof {
                if (spec_find(rest@, pat@) is None) {
                    assert(rest@.subrange(0, rest@.len() as int) =~= rest@);
                }
            }
            let seg = rest.substring_char(0, end);
            let seg_len = seg.unicode_len();
            let cut = match find_str(seg, "?") {
                Some(k) => {
                    proof {
                        lemma_find_sub_at_props(seg@, ("?")@, 0, k as int);
                    }
                    k
                },
                None => seg_len,
            };
            proof {
                if (spec_find(seg@, ("?")@) is None) {
                    assert(seg@.subrange(0, seg@.len() as int) =~= seg@);
                }
            }
            let id = seg.substring_char(0, cut);
            Some(id.to_owned())
        },
    }
}

/// What a play request's arguments refer to.
pub enum MediaRequest {
    /// A catalog track link and the identifier extracted from it: the
    /// runtime fetches the descriptor.
    SpotifyTrack(String),
    /// A recognised catalog link without an extractable identifier, or an
    /// unsupported reference: announce that nothing was found.
    NotRecognized,
}

/// Classifies a play request's arguments: a catalog track link yields its
/// extracted identifier; anything else is not recognised.
pub fn parse_media(args: &str) -> (r: MediaRequest)
    ensures
        spec_contains_sub(args@, "open.spotify.com/track/"@) && spec_extract_track_id(args@)
            is Some ==> (r matches MediaRequest::SpotifyTrack(id) && id@ == spec_extract_track_id(
            args@,
        )->0),
        !spec_contains_sub(args@, "open.spotify.com/track/"@) || spec_extract_track_id(args@)
            is None ==> r is NotRecognized,
{
    if contains_str(args, "open.spotify.com/track/") {
        match extract_track_id(args) {
            Some(id) => MediaRequest::SpotifyTrack(id),
            None => MediaRequest::NotRecognized,
        }
    } else {
        MediaRequest::NotRecognized
    }
}

/// The pause command's decision: the handle to pause, when this guild has a
/// session with a loaded track; otherwise nothing happens and nothing is
/// announced. The state itself is only read.
pub fn pause(state: &BotMusicState, guild_id: u64) -> (r: Option<u64>)
    requires
        state.wf(),
    ensures
        state.spec_get(guild_id) is Some && state.spec_get(guild_id)->0.voice_state.now_playing
            is Some ==> r == Some((state.spec_get(guild_id)->0.voice_state.now_playing->0).0),
        state.spec_get(guild_id) is None || state.spec_get(guild_id)->0.voice_state.now_playing
            is None ==> r is None,
{
    match state.get_session(guild_id) {
        Some(session) => match &session.voice_state.now_playing {
            Some(np) => Some(np.0),
            None => None,
        },
        None => None,
    }
}

/// The resume command's decision: the handle to resume, under the same
/// conditions as [`pause`].
pub fn resume(state: &BotMusicState, guild_id: u64) -> (r: Option<u64>)
    requires
        state.wf(),
    ensures
        state.spec_get(guild_id) is Some && state.spec_get(guild_id)->0.voice_state.now_playing
            is Some ==> r == Some((state.spec_get(guild_id)->0.voice_state.now_playing->0).0),
        state.spec_get(guild_id) is None || state.spec_get(guild_id)->0.voice_state.now_playing
            is None ==> r is None,
{
    match state.get_session(guild_id) {
        Some(session) => match &session.voice_state.now_playing {
            Some(np) => Some(np.0),
            None => None,
        },
        None => None,
    }
}

/// The title a skip announces for the loaded track: its metadata title, or a
/// placeholder when the track has none.
pub open spec fn spec_skip_title(meta: Option<TrackMetadata>) -> Seq<char> {
    match meta {
        Some(m) => match m.title {
            Some(t) => t@,
            None => "unknown"@,
        },
        None => "unknown"@,
    }
}

/// What the skip command decided.
pub enum SkipOutcome {
    /// No session for this guild: nothing happens, nothing is announced.
    NoSession,
    /// A session exists but no track is loaded: a "nothing playing" notice
    /// is due, and the queue is untouched.
    NothingPlaying,
    /// Stop this handle and announce the skipped title. Stopping makes the
    /// transport fire end-of-track, which is what advances the queue; the
    /// skip itself mutates nothing.
    Skip { handle: u64, title: String },
}

/// The skip command's decision. The state itself is only read: skipping
/// never mutates the queue directly.
pub fn skip(state: &BotMusicState, guild_id: u64) -> (r: SkipOutcome)
    requires
        state.wf(),
    ensures
        state.spec_get(guild_id) is None ==> r is NoSession,
        state.spec_get(guild_id) is Some && state.spec_get(guild_id)->0.voice_state.now_playing
            is None ==> r is NothingPlaying,
        state.spec_get(guild_id) is Some && state.spec_get(guild_id)->0.voice_state.now_playing
            is Some ==> ({
            let np = state.spec_get(guild_id)->0.voice_state.now_playing->0;
            &&& r matches SkipOutcome::Skip { handle, title }
            &&& handle == np.0
            &&& title@ == spec_skip_title(np.1)
        }),
{
    match state.get_session(guild_id) {
        None => SkipOutcome::NoSession,
        Some(session) => match &session.voice_state.now_playing {
            None => SkipOutcome::NothingPlaying,
            Some(np) => {
                let title = match &np.1 {
                    Some(m) => match &m.title {
                        Some(t) => t.clone(),
                        None => String::from_str("unknown"),
                    },
                    None => String::from_str("unknown"),
                };
                SkipOutcome::Skip { handle: np.0, title }
            },
        },
    }
}

/// What a play request resulted in, and what the runtime must do.
#[derive(PartialEq, Eq, Structural, Clone, Copy, Debug)]
pub enum PlayOutcome {
    /// No session exists for this guild (the join step failed): nothing
    /// happens.
    NoSession,
    /// The track was queued at this 1-based position; a track was already
    /// playing (or no transport is connected), so the queue will advance on
    /// its own.
    Queued { position: usize },
    /// The track was queued and activated: the runtime must start playback
    /// of this handle and arm the lifecycle callbacks on it.
    Started { position: usize, handle: u64 },
    /// The track was queued, nothing was playing, but nothing was ready to
    /// play either: a failure notice is due.
    StartFailed { position: usize },
}

/// How one voice channel's state before a play request relates to the state
/// after it: the track is appended, and when the transport is connected and
/// idle, the current entry is activated.
pub open spec fn play_transition_relates(
    pre: VoiceChannelMusicState,
    post: VoiceChannelMusicState,
    url: String,
    resolution: Option<ResolvedSource>,
    pos: usize,
    r: PlayOutcome,
) -> bool {
    let queued = pre.queue@.push(QueuedTrack { url: url, resolved: resolution });
    let cur = spec_current(queued, pre.index_playing as int);
    &&& post.call == pre.call
    &&& post.volume == pre.volume
    &&& post.index_playing == pre.index_playing
    &&& pos == queued.len()
    &&& if pre.call is Some && pre.now_playing is None {
        if cur is Some && cur->0.resolved is Some {
            let src = cur->0.resolved->0;
            &&& post.queue@ == queued.update(
                pre.index_playing as int,
                QueuedTrack { url: cur->0.url, resolved: None },
            )
            &&& post.now_playing == Some((src.handle, src.metadata))
            &&& r == (PlayOutcome::Started { position: pos, handle: src.handle })
        } else {
            &&& post.queue@ == queued
            &&& post.now_playing is None
            &&& r == (PlayOutcome::StartFailed { position: pos })
        }
    } else {
        &&& post.queue@ == queued
        &&& post.now_playing == pre.now_playing
        &&& r == (PlayOutcome::Queued { position: pos })
    }
}

/// The queue position an outcome reports.
pub open spec fn spec_outcome_position(r: PlayOutcome) -> usize {
    match r {
        PlayOutcome::NoSession => 0,
        PlayOutcome::Queued { position } => position,
        PlayOutcome::Started { position, .. } => position,
        PlayOutcome::StartFailed { position } => position,
    }
}

/// The play command's session mutation, after the runtime has resolved the
/// request to a playable URL (and performed the resolution step eagerly when
/// something was already playing).
///
/// The track is enqueued; when the transport is connected and idle, the
/// current entry is activated at once, and the outcome names the handle the
/// runtime must start and arm callbacks on. Without a session (the join
/// step failed) nothing happens.
pub fn play_enqueued(
    state: &mut BotMusicState,
    guild_id: u64,
    url: String,
    resolution: Option<ResolvedSource>,
) -> (r: PlayOutcome)
    requires
        old(state).wf(),
    ensures
        final(state).wf(),
        !old(state).spec_contains(guild_id) ==> *final(state) == *old(state) && r
            == PlayOutcome::NoSession,
        old(state).spec_contains(guild_id) ==> ({
            let pre_s = old(state).spec_get(guild_id)->0;
            &&& final(state).spec_get(guild_id) matches Some(post_s)
            &&& post_s.guild_id == pre_s.guild_id
            &&& post_s.channel_id == pre_s.channel_id
            &&& play_transition_relates(
                pre_s.voice_state,
                post_s.voice_state,
                url,
                resolution,
                spec_outcome_position(r),
                r,
            )
        }),
        forall|g: u64|
            g != guild_id ==> #[trigger] final(state).spec_get(g) == old(state).spec_get(g),
        forall|g: u64|
            g != guild_id ==> #[trigger] final(state).spec_contains(g) == old(
                state,
            ).spec_contains(g),
{
    let found = state.index_of(guild_id);
    match found {
        None => PlayOutcome::NoSession,
        Some(i) => {
            proof {
                state.lemma_get_at(guild_id, i as int);
            }
            let mut entry = state.music_sessions.remove(i);
            let pos = entry.1.voice_state.add_track(url, resolution);
            let idle = entry.1.voice_state.call.is_some()
                && entry.1.voice_state.now_playing.is_none();
            let outcome = if idle {
                match entry.1.voice_state.playing_track() {
                    Some(handle) => PlayOutcome::Started { position: pos, handle },
                    None => PlayOutcome::StartFailed { position: pos },
                }
            } else {
                PlayOutcome::Queued { position: pos }
            };
            let ghost entry_after = entry;
            state.music_sessions.insert(i, entry);
            proof {
                let pre = *old(state);
                assert(state.music_sessions@ =~= pre.music_sessions@.update(
                    i as int,
                    entry_after,
                ));
                assert forall|a: int, b: int|
                    0 <= a < b < state.music_sessions@.len() implies state.music_sessions@[a].0
                    != state.music_sessions@[b].0 by {
                    assert(state.music_sessions@[a].0 == pre.music_sessions@[a].0);
                    assert(state.music_sessions@[b].0 == pre.music_sessions@[b].0);
                }
                assert forall|g: u64| g != guild_id implies #[trigger] state.spec_get(g)
                    == pre.spec_get(g) by {
                    BotMusicState::lemma_update_preserves_other(pre, *state, guild_id, i as int, g);
                }
                assert forall|g: u64|
                    g != guild_id implies #[trigger] state.spec_contains(g) == pre.spec_contains(
                    g,
                ) by {
                    assert(state.spec_get(g) == pre.spec_get(g));
                }
                state.lemma_get_at(guild_id, i as int);
                assert(play_transition_relates(
                    pre.spec_get(guild_id)->0.voice_state,
                    entry_after.1.voice_state,
                    url,
                    resolution,
                    pos,
                    outcome,
                ));
            }
            outcome
        },
    }
}

} // verus!

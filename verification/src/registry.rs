//! The process-wide session registry: one playback session per guild.
//!
//! The registry is the single source of truth for session lifecycle: a
//! session is created when the bot joins a guild's voice channel and removed
//! when it leaves or the voice link drops. Event callbacks look their session
//! up by guild identifier each time they fire, so a callback whose session
//! has been removed finds nothing and does nothing.
//!
//! Sessions are stored as an association list keyed by guild identifier,
//! with the well-formedness invariant that keys are distinct.
use vstd::prelude::*;

use crate::queue::DEFAULT_VOLUME_PERCENT;
use crate::queue::QueuedTrack;
use crate::queue::VoiceChannelMusicState;

verus! {

/// One guild's playback session: where it lives and its voice-channel state.
pub struct GuildMusicSession {
    pub guild_id: u64,
    pub channel_id: u64,
    pub voice_state: VoiceChannelMusicState,
}

impl GuildMusicSession {
    pub fn new(call: Option<u64>, guild_id: u64, channel_id: u64) -> (s: Self)
        ensures
            s.guild_id == guild_id,
            s.channel_id == channel_id,
            s.voice_state.call == call,
            s.voice_state.queue@ == Seq::<QueuedTrack>::empty(),
            s.voice_state.now_playing is None,
            s.voice_state.index_playing == 0,
            s.voice_state.volume == DEFAULT_VOLUME_PERCENT,
    {
        Self { guild_id, channel_id, voice_state: VoiceChannelMusicState::new(call) }
    }
}

/// The registry of all active sessions, keyed by guild identifier.
pub struct BotMusicState {
    pub music_sessions: Vec<(u64, GuildMusicSession)>,
}

impl BotMusicState {
    /// Well-formedness: at most one session per guild.
    pub open spec fn wf(self) -> bool {
        forall|i: int, j: int|
            0 <= i < j < self.music_sessions@.len() ==> self.music_sessions@[i].0
                != self.music_sessions@[j].0
    }

    /// Whether a session is registered for this guild.
    pub open spec fn spec_contains(self, guild_id: u64) -> bool {
        exists|i: int|
            0 <= i < self.music_sessions@.len() && self.music_sessions@[i].0 == guild_id
    }

    /// The index of this guild's entry; meaningful only when one exists.
    pub open spec fn spec_index_of(self, guild_id: u64) -> int {
        choose|i: int|
            0 <= i < self.music_sessions@.len() && self.music_sessions@[i].0 == guild_id
    }

    /// The session registered for this guild, if any.
    pub open spec fn spec_get(self, guild_id: u64) -> Option<GuildMusicSession> {
        if self.spec_contains(guild_id) {
            Some(self.music_sessions@[self.spec_index_of(guild_id)].1)
        } else {
            None
        }
    }

    /// In a well-formed registry, an entry holding the key is the entry the
    /// lookup designates.
    pub proof fn lemma_get_at(self, guild_id: u64, i: int)
        requires
            self.wf(),
            0 <= i < self.music_sessions@.len(),
            self.music_sessions@[i].0 == guild_id,
        ensures
            self.spec_contains(guild_id),
            self.spec_index_of(guild_id) == i,
            self.spec_get(guild_id) == Some(self.music_sessions@[i].1),
    {
        let j = self.spec_index_of(guild_id);
        assert(0 <= j < self.music_sessions@.len() && self.music_sessions@[j].0 == guild_id);
    }

    pub fn new() -> (s: Self)
        ensures
            s.wf(),
            s.music_sessions@ == Seq::<(u64, GuildMusicSession)>::empty(),
            forall|g: u64| !s.spec_contains(g),
    {
        Self { music_sessions: Vec::new() }
    }

    /// Replacing what is stored under one guild's key affects no other guild.
    pub proof fn lemma_update_preserves_other(
        pre: BotMusicState,
        post: BotMusicState,
        guild_id: u64,
        i: int,
        g: u64,
    )
        requires
            pre.wf(),
            0 <= i < pre.music_sessions@.len(),
            pre.music_sessions@[i].0 == guild_id,
            post.music_sessions@.len() == pre.music_sessions@.len(),
            forall|k: int|
                0 <= k < pre.music_sessions@.len() && k != i ==> post.music_sessions@[k]
                    == pre.music_sessions@[k],
            post.music_sessions@[i].0 == guild_id,
            g != guild_id,
        ensures
            post.wf(),
            post.spec_get(g) == pre.spec_get(g),
    {
        let n = pre.music_sessions@.len() as int;
        assert forall|a: int, b: int|
            0 <= a < b < n implies post.music_sessions@[a].0 != post.music_sessions@[b].0 by {
            assert(post.music_sessions@[a].0 == pre.music_sessions@[a].0);
            assert(post.music_sessions@[b].0 == pre.music_sessions@[b].0);
        }
        if pre.spec_contains(g) {
            let k = pre.spec_index_of(g);
            assert(0 <= k < n && pre.music_sessions@[k].0 == g);
            pre.lemma_get_at(g, k);
            assert(k != i);
            post.lemma_get_at(g, k);
        } else {
            if post.spec_contains(g) {
                let k = post.spec_index_of(g);
                assert(0 <= k < n && post.music_sessions@[k].0 == g);
                assert(k != i);
                assert(pre.music_sessions@[k].0 == g);
            }
        }
    }

    /// The position of this guild's entry, if one is registered.
    pub(crate) fn index_of(&self, guild_id: u64) -> (r: Option<usize>)
        ensures
            match r {
                Some(i) => i < self.music_sessions@.len() && self.music_sessions@[i as int].0
                    == guild_id,
                None => !self.spec_contains(guild_id),
            },
    {
        let n = self.music_sessions.len();
        let mut i: usize = 0;
        while i < n
            invariant
                n == self.music_sessions@.len(),
                0 <= i <= n,
                forall|k: int| 0 <= k < i ==> self.music_sessions@[k].0 != guild_id,
            decreases n - i,
        {
            if self.music_sessions[i].0 == guild_id {
                return Some(i);
            }
            i = i + 1;
        }
        None
    }

    /// A shared borrow of this guild's session, if one is registered.
    pub fn get_session(&self, guild_id: u64) -> (r: Option<&GuildMusicSession>)
        requires
            self.wf(),
        ensures
            match r {
                Some(s) => self.spec_get(guild_id) == Some(*s),
                None => self.spec_get(guild_id) is None,
            },
    {
        match self.index_of(guild_id) {
            Some(i) => {
                proof {
                    self.lemma_get_at(guild_id, i as int);
                }
                Some(&self.music_sessions[i].1)
            },
            None => None,
        }
    }

    /// Registers a fresh session for this guild, connected to the given
    /// transport, unless one is already registered, in which case nothing
    /// changes: the registry keeps exactly one session per guild.
    pub fn register_session(&mut self, guild_id: u64, channel_id: u64, transport: u64)
        requires
            old(self).wf(),
        ensures
            final(self).wf(),
            old(self).spec_contains(guild_id) ==> *final(self) == *old(self),
            !old(self).spec_contains(guild_id) ==> {
                &&& final(self).spec_get(guild_id) matches Some(s)
                &&& s.guild_id == guild_id
                &&& s.channel_id == channel_id
                &&& s.voice_state.call == Some(transport)
                &&& s.voice_state.queue@.len() == 0
                &&& s.voice_state.now_playing is None
                &&& s.voice_state.index_playing == 0
                &&& s.voice_state.volume == DEFAULT_VOLUME_PERCENT
            },
            forall|g: u64|
                g != guild_id ==> #[trigger] final(self).spec_get(g) == old(self).spec_get(g),
            forall|g: u64|
                g != guild_id ==> #[trigger] final(self).spec_contains(g) == old(
                    self,
                ).spec_contains(g),
            final(self).spec_contains(guild_id),
    {
        let found = self.index_of(guild_id);
        match found {
            Some(i) => {
                proof {
                    self.lemma_get_at(guild_id, i as int);
                }
            },
            None => {
                let session = GuildMusicSession::new(Some(transport), guild_id, channel_id);
                self.music_sessions.push((guild_id, session));
                proof {
                    let n = old(self).music_sessions@.len();
                    assert(self.music_sessions@[n as int].0 == guild_id);
                    assert forall|i: int, j: int|
                        0 <= i < j < self.music_sessions@.len() implies self.music_sessions@[i].0
                        != self.music_sessions@[j].0 by {
                        if j < n {
                            assert(old(self).music_sessions@[i].0 != old(
                                self,
                            ).music_sessions@[j].0);
                        }
                    }
                    self.lemma_get_at(guild_id, n as int);
                    assert forall|g: u64| g != guild_id implies #[trigger] self.spec_get(g) == old(
                        self,
                    ).spec_get(g) by {
                        Self::lemma_push_preserves_other(*old(self), *self, guild_id, g);
                    }
                    assert forall|g: u64|
                        g != guild_id implies #[trigger] self.spec_contains(g) == old(
                        self,
                    ).spec_contains(g) by {
                        assert(self.spec_get(g) == old(self).spec_get(g));
                    }
                }
            },
        }
    }

    /// Pushing an entry for one guild does not change what the registry holds
    /// for any other guild.
    proof fn lemma_push_preserves_other(
        pre: BotMusicState,
        post: BotMusicState,
        guild_id: u64,
        g: u64,
    )
        requires
            pre.wf(),
            post.wf(),
            post.music_sessions@.len() == pre.music_sessions@.len() + 1,
            forall|k: int|
                0 <= k < pre.music_sessions@.len() ==> post.music_sessions@[k]
                    == pre.music_sessions@[k],
            post.music_sessions@[pre.music_sessions@.len() as int].0 == guild_id,
            g != guild_id,
        ensures
            post.spec_get(g) == pre.spec_get(g),
    {
        let n = pre.music_sessions@.len() as int;
        if pre.spec_contains(g) {
            let i = pre.spec_index_of(g);
            assert(0 <= i < n && pre.music_sessions@[i].0 == g);
            pre.lemma_get_at(g, i);
            post.lemma_get_at(g, i);
        } else {
            if post.spec_contains(g) {
                let i = post.spec_index_of(g);
                assert(0 <= i < n + 1 && post.music_sessions@[i].0 == g);
                assert(i != n);
                assert(pre.music_sessions@[i].0 == g);
            }
        }
    }

    /// Removes this guild's session, if one is registered; removal is
    /// idempotent, and no other guild's session is affected. Returns whether
    /// a session was removed.
    pub fn remove_session(&mut self, guild_id: u64) -> (removed: bool)
        requires
            old(self).wf(),
        ensures
            final(self).wf(),
            removed == old(self).spec_contains(guild_id),
            !removed ==> *final(self) == *old(self),
            !final(self).spec_contains(guild_id),
            forall|g: u64|
                g != guild_id ==> #[trigger] final(self).spec_get(g) == old(self).spec_get(g),
            forall|g: u64|
                g != guild_id ==> #[trigger] final(self).spec_contains(g) == old(
                    self,
                ).spec_contains(g),
    {
        let found = self.index_of(guild_id);
        match found {
            Some(i) => {
                proof {
                    self.lemma_get_at(guild_id, i as int);
                }
                self.music_sessions.remove(i);
                proof {
                    let pre = *old(self);
                    let ii = i as int;
                    assert forall|a: int, b: int|
                        0 <= a < b < self.music_sessions@.len() implies self.music_sessions@[a].0
                        != self.music_sessions@[b].0 by {
                        let a0 = if a < ii {
                            a
                        } else {
                            a + 1
                        };
                        let b0 = if b < ii {
                            b
                        } else {
                            b + 1
                        };
                        assert(pre.music_sessions@[a0].0 != pre.music_sessions@[b0].0);
                    }
                    assert(!self.spec_contains(guild_id)) by {
                        if self.spec_contains(guild_id) {
                            let k = self.spec_index_of(guild_id);
                            let k0 = if k < ii {
                                k
                            } else {
                                k + 1
                            };
                            assert(pre.music_sessions@[k0].0 == guild_id);
                            assert(pre.music_sessions@[ii].0 == guild_id);
                            assert(pre.wf());
                        }
                    }
                    assert forall|g: u64| g != guild_id implies #[trigger] self.spec_get(g) == pre
                        .spec_get(g) by {
                        Self::lemma_remove_preserves_other(pre, *self, guild_id, ii, g);
                    }
                    assert forall|g: u64|
                        g != guild_id implies #[trigger] self.spec_contains(g)
                        == pre.spec_contains(g) by {
                        assert(self.spec_get(g) == pre.spec_get(g));
                    }
                }
                true
            },
            None => false,
        }
    }

    /// Removing one guild's entry does not change what the registry holds for
    /// any other guild.
    proof fn lemma_remove_preserves_other(
        pre: BotMusicState,
        post: BotMusicState,
        guild_id: u64,
        i: int,
        g: u64,
    )
        requires
            pre.wf(),
            post.wf(),
            0 <= i < pre.music_sessions@.len(),
            pre.music_sessions@[i].0 == guild_id,
            post.music_sessions@ == pre.music_sessions@.remove(i),
            g != guild_id,
        ensures
            post.spec_get(g) == pre.spec_get(g),
    {
        let n = pre.music_sessions@.len() as int;
        if pre.spec_contains(g) {
            let k = pre.spec_index_of(g);
            assert(0 <= k < n && pre.music_sessions@[k].0 == g);
            pre.lemma_get_at(g, k);
            let k1 = if k < i {
                k
            } else {
                k - 1
            };
            assert(post.music_sessions@[k1] == pre.music_sessions@[k]);
            post.lemma_get_at(g, k1);
        } else {
            if post.spec_contains(g) {
                let k = post.spec_index_of(g);
                assert(0 <= k < n - 1 && post.music_sessions@[k].0 == g);
                let k0 = if k < i {
                    k
                } else {
                    k + 1
                };
                assert(pre.music_sessions@[k0].0 == g);
            }
        }
    }
}

} // verus!

//! The playback queue and the per-voice-channel playback state.
//!
//! A [`QueuedTrack`] wraps a media URL together with its lazily resolved
//! playable source; a [`VoiceChannelMusicState`] owns an ordered queue of
//! such tracks, a cursor designating the current entry, the optional voice
//! transport, and the currently playing track.
//!
//! Voice transports and playable sources are opaque to this engine: each is
//! carried as a numeric identifier that the embedding runtime maps to its
//! live handle. Resolution (turning a URL into a decode-ready source) is
//! performed by the runtime; its outcome is handed in as a plain value.
use vstd::prelude::*;

verus! {

/// Volume a fresh session starts with, in percent of full scale.
pub const DEFAULT_VOLUME_PERCENT: u32 = 100;

/// Descriptive metadata for an audio source, as far as probing discovered it.
pub struct TrackMetadata {
    pub title: Option<String>,
    pub artist: Option<String>,
}

/// A decode-ready audio source: the runtime's playable handle plus the
/// metadata that the probe step discovered for it.
pub struct ResolvedSource {
    pub handle: u64,
    pub metadata: Option<TrackMetadata>,
}

/// One entry of a playback queue: the URL it was enqueued under and, once
/// resolution has happened, the playable source built from it.
pub struct QueuedTrack {
    pub url: String,
    pub resolved: Option<ResolvedSource>,
}

impl QueuedTrack {
    /// Spec-level effect of [`QueuedTrack::take_input`]: the entry afterwards
    /// and the source that came out.
    pub open spec fn take_spec(self) -> (QueuedTrack, Option<ResolvedSource>) {
        (QueuedTrack { url: self.url, resolved: None }, self.resolved)
    }

    /// Stores the outcome of a resolution attempt, unless the entry is
    /// already resolved: resolution is idempotent, and a populated source is
    /// never overwritten. A failed attempt (`None`) leaves the entry
    /// unresolved, to be skipped rather than retried.
    pub fn preload(&mut self, resolution: Option<ResolvedSource>)
        ensures
            old(self).resolved is Some ==> *final(self) == *old(self),
            old(self).resolved is None ==> final(self).url == old(self).url
                && final(self).resolved == resolution,
    {
        if self.resolved.is_none() {
            self.resolved = resolution;
        }
    }

    /// Returns the resolved source and clears it: a source is handed out at
    /// most once; before resolution, or after it was taken, nothing comes out.
    pub fn take_input(&mut self) -> (r: Option<ResolvedSource>)
        ensures
            *final(self) == old(self).take_spec().0,
            r == old(self).take_spec().1,
    {
        self.resolved.take()
    }
}

/// An entry hands its source out at most once: whatever a first `take_input`
/// returned, a second one on the same entry always yields nothing.
pub proof fn lemma_take_at_most_once(t: QueuedTrack)
    ensures
        t.take_spec().0.take_spec().1 is None,
{
}

/// The entry designated by `cursor` in `entries`, or `None` once the cursor
/// has moved past the end: the queue is exhausted.
pub open spec fn spec_current(entries: Seq<QueuedTrack>, cursor: int) -> Option<QueuedTrack> {
    if 0 <= cursor < entries.len() {
        Some(entries[cursor])
    } else {
        None
    }
}

/// Spec-level effect of one `advance` on the cursor: one step forward,
/// except at the numeric limit, which is already past any queue.
pub open spec fn spec_advance(cursor: int) -> int {
    if cursor < usize::MAX {
        cursor + 1
    } else {
        cursor
    }
}

/// The cursor after `n` successive `advance` calls.
pub open spec fn spec_advance_n(cursor: int, n: nat) -> int
    decreases n,
{
    if n == 0 {
        cursor
    } else {
        spec_advance(spec_advance_n(cursor, (n - 1) as nat))
    }
}

/// The queue after enqueueing each track of `added`, in order, onto `entries`.
pub open spec fn spec_enqueue_all(entries: Seq<QueuedTrack>, added: Seq<QueuedTrack>) -> Seq<
    QueuedTrack,
>
    decreases added.len(),
{
    if added.len() == 0 {
        entries
    } else {
        spec_enqueue_all(entries.push(added[0]), added.drop_first())
    }
}

/// Enqueueing only ever appends: a sequence of enqueue calls adds exactly its
/// tracks, in order, after the existing entries.
pub proof fn lemma_enqueue_all_appends(entries: Seq<QueuedTrack>, added: Seq<QueuedTrack>)
    ensures
        spec_enqueue_all(entries, added) == entries + added,
    decreases added.len(),
{
    if added.len() == 0 {
        assert(entries + added =~= entries);
    } else {
        lemma_enqueue_all_appends(entries.push(added[0]), added.drop_first());
        assert(entries.push(added[0]) + added.drop_first() =~= entries + added);
    }
}

/// For every sequence of enqueue calls on an empty queue, the current entry
/// before any advance is the first track enqueued.
pub proof fn lemma_first_enqueued_is_current(added: Seq<QueuedTrack>)
    requires
        added.len() > 0,
    ensures
        spec_enqueue_all(Seq::<QueuedTrack>::empty(), added).len() == added.len(),
        spec_current(spec_enqueue_all(Seq::<QueuedTrack>::empty(), added), 0) == Some(added[0]),
{
    lemma_enqueue_all_appends(Seq::<QueuedTrack>::empty(), added);
    assert(Seq::<QueuedTrack>::empty() + added =~= added);
}

/// The cursor value after `n` advances: it grows by one per call until the
/// numeric limit, where it stays.
pub proof fn lemma_advance_n_value(cursor: int, n: nat)
    requires
        0 <= cursor <= usize::MAX,
    ensures
        spec_advance_n(cursor, n) == if cursor + n <= usize::MAX {
            cursor + n
        } else {
            usize::MAX as int
        },
    decreases n,
{
    if n > 0 {
        lemma_advance_n_value(cursor, (n - 1) as nat);
    }
}

/// Advancing never fails, and once enough advances have happened that the
/// cursor has reached or passed the end of the queue, there is no current
/// entry, however often `advance` is called again.
pub proof fn lemma_advance_exhausts(entries: Seq<QueuedTrack>, cursor: int, n: nat)
    requires
        0 <= cursor <= usize::MAX,
        entries.len() <= usize::MAX,
        cursor + n >= entries.len(),
    ensures
        spec_current(entries, spec_advance_n(cursor, n)) is None,
{
    lemma_advance_n_value(cursor, n);
}

/// The arguments the resolver is invoked with when it turns a URL into an
/// audio stream: a single item, preferring the best opus-codec audio stream
/// and falling back to the best audio stream.
pub fn ytdl_user_args() -> (r: Vec<String>)
    ensures
        r@.len() == 3,
        r@[0]@ == "--no-playlist"@,
        r@[1]@ == "-f"@,
        r@[2]@ == "bestaudio[acodec=opus]/bestaudio"@,
{
    let mut r: Vec<String> = Vec::new();
    r.push(String::from_str("--no-playlist"));
    r.push(String::from_str("-f"));
    r.push(String::from_str("bestaudio[acodec=opus]/bestaudio"));
    r
}

/// Playback state of one voice channel: the queue, the cursor, the optional
/// transport, the currently loaded track, and the playback volume.
pub struct VoiceChannelMusicState {
    /// Identifier of the live voice transport, if one is connected.
    pub call: Option<u64>,
    /// The ordered queue of enqueued tracks. Entries are appended only.
    pub queue: Vec<QueuedTrack>,
    /// The track actively loaded into the transport: its playing handle and
    /// its metadata. `Some` exactly while the transport holds a track.
    pub now_playing: Option<(u64, Option<TrackMetadata>)>,
    /// Cursor into `queue`: the index of the entry considered current.
    pub index_playing: usize,
    /// Playback volume in percent of full scale.
    pub volume: u32,
}

impl VoiceChannelMusicState {
    /// The entry the cursor designates, if the queue is not exhausted.
    pub open spec fn current_spec(self) -> Option<QueuedTrack> {
        spec_current(self.queue@, self.index_playing as int)
    }

    pub fn new(call: Option<u64>) -> (s: Self)
        ensures
            s.call == call,
            s.queue@ == Seq::<QueuedTrack>::empty(),
            s.now_playing is None,
            s.index_playing == 0,
            s.volume == DEFAULT_VOLUME_PERCENT,
    {
        Self {
            call,
            queue: Vec::new(),
            now_playing: None,
            index_playing: 0,
            volume: DEFAULT_VOLUME_PERCENT,
        }
    }

    /// Whether a track is currently loaded into the transport. A new enqueue
    /// is resolved eagerly exactly in that case, so that it is decode-ready
    /// the moment it becomes current.
    pub fn is_playing(&self) -> (r: bool)
        ensures
            r == (self.now_playing is Some),
    {
        self.now_playing.is_some()
    }

    /// A shared borrow of the current entry, or `None` once the queue is
    /// exhausted.
    pub fn get_current_track(&self) -> (r: Option<&QueuedTrack>)
        ensures
            match r {
                Some(t) => self.current_spec() == Some(*t),
                None => self.current_spec() is None,
            },
    {
        if self.index_playing < self.queue.len() {
            Some(&self.queue[self.index_playing])
        } else {
            None
        }
    }

    /// Moves the cursor one entry forward, unconditionally: no bound check is
    /// made, and callers treat "no current entry" as queue-exhausted. Never
    /// fails, even when the queue is already exhausted.
    pub fn advance(&mut self)
        ensures
            final(self).index_playing as int == spec_advance(old(self).index_playing as int),
            final(self).call == old(self).call,
            final(self).queue == old(self).queue,
            final(self).now_playing == old(self).now_playing,
            final(self).volume == old(self).volume,
    {
        if self.index_playing < usize::MAX {
            self.index_playing = self.index_playing + 1;
        }
    }

    /// Appends a track whose resolution outcome the caller already performed
    /// (eagerly when something is playing, lazily otherwise), and returns the
    /// appended entry's 1-based position in the full sequence: the new queue
    /// length.
    pub fn add_track(&mut self, url: String, resolution: Option<ResolvedSource>) -> (pos: usize)
        ensures
            final(self).queue@ == old(self).queue@.push(
                QueuedTrack { url: url, resolved: resolution },
            ),
            final(self).call == old(self).call,
            final(self).now_playing == old(self).now_playing,
            final(self).index_playing == old(self).index_playing,
            final(self).volume == old(self).volume,
            pos == final(self).queue@.len(),
    {
        self.queue.push(QueuedTrack { url, resolved: resolution });
        self.queue.len()
    }

    /// Loads the current track into the transport, if possible.
    ///
    /// Requires nothing: without a transport it returns `None` and changes
    /// nothing; likewise when the queue is exhausted or the current entry has
    /// no resolved source to take (never resolved, resolution failed, or the
    /// source was already consumed). On success the taken source's handle and
    /// metadata become the playing track, and the handle is returned so the
    /// runtime can start playback at the session's volume.
    pub fn playing_track(&mut self) -> (r: Option<u64>)
        ensures
            old(self).call is None ==> r is None && *final(self) == *old(self),
            old(self).call is Some && old(self).current_spec() is None ==> r is None
                && *final(self) == *old(self),
            old(self).call is Some && old(self).current_spec() is Some && old(
                self,
            ).current_spec()->0.resolved is None ==> r is None && *final(self) == *old(self),
            old(self).call is Some && old(self).current_spec() is Some && old(
                self,
            ).current_spec()->0.resolved is Some ==> ({
                let t = old(self).current_spec()->0;
                let src = t.resolved->0;
                &&& r == Some(src.handle)
                &&& final(self).now_playing == Some((src.handle, src.metadata))
                &&& final(self).queue@ == old(self).queue@.update(
                    old(self).index_playing as int,
                    QueuedTrack { url: t.url, resolved: None },
                )
                &&& final(self).call == old(self).call
                &&& final(self).index_playing == old(self).index_playing
                &&& final(self).volume == old(self).volume
            }),
    {
        if self.call.is_none() {
            return None;
        }
        let i = self.index_playing;
        if i >= self.queue.len() {
            return None;
        }
        if self.queue[i].resolved.is_none() {
            return None;
        }
        let entry = &mut self.queue[i];
        let src = entry.take_input();
        match src {
            Some(s) => {
                self.now_playing = Some((s.handle, s.metadata));
                Some(s.handle)
            },
            None => None,
        }
    }
}

} // verus!

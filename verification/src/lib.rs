//! Per-guild audio playback engine for a chat bot.
//!
//! The engine tracks one playback session per voice-enabled guild, manages a
//! queue of pending audio sources, and reacts to playback lifecycle events
//! (track ended, track became playable, voice link disconnected) so that the
//! queue advances safely even when a session has already been torn down.
//!
//! All state here is modelled over plain values: voice transports and playable
//! audio handles appear as numeric identifiers that the embedding runtime maps
//! to its live handles.
use vstd::prelude::*;

pub mod channels;
pub mod event;
pub mod message;
pub mod notice;
pub mod queue;
pub mod registry;
pub mod spotify;
pub mod text;
pub mod token;
pub mod track;
pub mod voice;
pub mod youtube;

verus! {

/// Marker type for the shared HTTP client slot in the runtime's data map.
pub struct HttpKey;

/// Marker type for the shared playback-state slot in the runtime's data map.
pub struct MusicStateKey;

} // verus!

use playbot::queue::QueuedTrack;
use playbot::queue::ResolvedSource;
use playbot::queue::TrackMetadata;
use playbot::queue::VoiceChannelMusicState;
use playbot::queue::DEFAULT_VOLUME_PERCENT;
use playbot::queue::ytdl_user_args;

fn resolved(handle: u64, title: &str) -> ResolvedSource {
    ResolvedSource {
        handle,
        metadata: Some(TrackMetadata {
            title: Some(title.to_string()),
            artist: None,
        }),
    }
}

#[test]
fn take_input_yields_at_most_once() {
    let mut track = QueuedTrack {
        url: "u".to_string(),
        resolved: Some(resolved(9, "t")),
    };
    let first = track.take_input();
    assert!(first.is_some());
    assert_eq!(first.unwrap().handle, 9);
    let second = track.take_input();
    assert!(second.is_none());
}

#[test]
fn take_input_on_unresolved_is_empty() {
    let mut track = QueuedTrack {
        url: "u".to_string(),
        resolved: None,
    };
    assert!(track.take_input().is_none());
}

#[test]
fn preload_is_idempotent() {
    let mut track = QueuedTrack {
        url: "u".to_string(),
        resolved: None,
    };
    track.preload(Some(resolved(1, "first")));
    track.preload(Some(resolved(2, "second")));
    let taken = track.take_input().unwrap();
    assert_eq!(taken.handle, 1);
}

#[test]
fn preload_failure_leaves_unresolved() {
    let mut track = QueuedTrack {
        url: "u".to_string(),
        resolved: None,
    };
    track.preload(None);
    assert!(track.take_input().is_none());
}

#[test]
fn first_enqueued_is_current() {
    let mut state = VoiceChannelMusicState::new(None);
    let pos_a = state.add_track("A".to_string(), None);
    let pos_b = state.add_track("B".to_string(), None);
    assert_eq!(pos_a, 1);
    assert_eq!(pos_b, 2);
    let current = state.get_current_track().unwrap();
    assert_eq!(current.url, "A");
}

#[test]
fn duplicate_url_reports_appended_position() {
    let mut state = VoiceChannelMusicState::new(None);
    assert_eq!(state.add_track("A".to_string(), None), 1);
    assert_eq!(state.add_track("A".to_string(), None), 2);
    assert_eq!(state.queue.len(), 2);
}

#[test]
fn advance_past_end_is_harmless() {
    let mut state = VoiceChannelMusicState::new(Some(1));
    state.add_track("A".to_string(), None);
    state.add_track("B".to_string(), None);
    for _ in 0..5 {
        state.advance();
    }
    assert_eq!(state.index_playing, 5);
    assert!(state.get_current_track().is_none());
}

#[test]
fn advance_once_moves_to_second() {
    let mut state = VoiceChannelMusicState::new(Some(1));
    state.add_track("A".to_string(), None);
    state.add_track("B".to_string(), None);
    state.advance();
    assert_eq!(state.get_current_track().unwrap().url, "B");
}

#[test]
fn playing_track_without_transport_is_empty() {
    let mut state = VoiceChannelMusicState::new(None);
    state.add_track("A".to_string(), Some(resolved(5, "a")));
    let handle = state.playing_track();
    assert!(handle.is_none());
    assert!(state.now_playing.is_none());
    assert!(state.queue[0].resolved.is_some());
}

#[test]
fn playing_track_loads_current() {
    let mut state = VoiceChannelMusicState::new(Some(3));
    state.add_track("A".to_string(), Some(resolved(5, "a")));
    let handle = state.playing_track();
    assert_eq!(handle, Some(5));
    let np = state.now_playing.as_ref().unwrap();
    assert_eq!(np.0, 5);
    assert_eq!(np.1.as_ref().unwrap().title.as_ref().unwrap(), "a");
    assert!(state.queue[0].resolved.is_none());
    assert_eq!(state.volume, DEFAULT_VOLUME_PERCENT);
}

#[test]
fn playing_track_unresolved_is_empty() {
    let mut state = VoiceChannelMusicState::new(Some(3));
    state.add_track("A".to_string(), None);
    assert!(state.playing_track().is_none());
    assert!(state.now_playing.is_none());
}

#[test]
fn playing_track_exhausted_is_empty() {
    let mut state = VoiceChannelMusicState::new(Some(3));
    assert!(state.playing_track().is_none());
}

#[test]
fn resolver_arguments() {
    let args = ytdl_user_args();
    assert_eq!(
        args,
        vec![
            "--no-playlist".to_string(),
            "-f".to_string(),
            "bestaudio[acodec=opus]/bestaudio".to_string()
        ]
    );
}

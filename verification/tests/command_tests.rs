use playbot::message::Command;
use playbot::message::parse_command;
use playbot::message::play_args;
use playbot::queue::ResolvedSource;
use playbot::queue::TrackMetadata;
use playbot::registry::BotMusicState;
use playbot::track::MediaRequest;
use playbot::track::SkipOutcome;
use playbot::track::extract_track_id;
use playbot::track::parse_media;
use playbot::track::pause;
use playbot::track::play_enqueued;
use playbot::track::resume;
use playbot::track::skip;

const GUILD: u64 = 5;

fn playing_state(title: Option<&str>, with_metadata: bool) -> BotMusicState {
    let mut state = BotMusicState::new();
    state.register_session(GUILD, 1, 2);
    let metadata = if with_metadata {
        Some(TrackMetadata {
            title: title.map(|t| t.to_string()),
            artist: None,
        })
    } else {
        None
    };
    let source = ResolvedSource {
        handle: 77,
        metadata,
    };
    play_enqueued(&mut state, GUILD, "url".to_string(), Some(source));
    state
}

#[test]
fn parse_command_dispatch() {
    assert_eq!(parse_command("pb!ping"), Some(Command::Ping));
    assert_eq!(parse_command("pb!join"), Some(Command::Join));
    assert_eq!(parse_command("pb!leave"), Some(Command::Leave));
    assert_eq!(parse_command("pb!play song"), Some(Command::Play));
    assert_eq!(parse_command("pb!pause"), Some(Command::Pause));
    assert_eq!(parse_command("pb!resume"), Some(Command::Resume));
    assert_eq!(parse_command("pb!skip"), Some(Command::Skip));
    assert_eq!(parse_command("pb!volume 3"), Some(Command::Volume));
    assert_eq!(parse_command("hello"), None);
    assert_eq!(parse_command("pb!"), None);
    assert_eq!(parse_command("pb!playlist"), Some(Command::Play));
}

#[test]
fn play_args_strips_and_trims() {
    assert_eq!(play_args("pb!play   https://x  "), "https://x");
    assert_eq!(play_args("pb!play"), "");
    assert_eq!(play_args("PB!play https://x"), "");
    assert_eq!(play_args("pb!pause"), "");
}

#[test]
fn extract_track_id_plain() {
    assert_eq!(
        extract_track_id("https://open.spotify.com/track/123abc").unwrap(),
        "123abc"
    );
}

#[test]
fn extract_track_id_cuts_query() {
    assert_eq!(
        extract_track_id("https://open.spotify.com/track/123abc?si=xyz").unwrap(),
        "123abc"
    );
}

#[test]
fn extract_track_id_takes_piece_between_markers() {
    assert_eq!(extract_track_id("a/track/b/track/c?x").unwrap(), "b");
}

#[test]
fn extract_track_id_without_marker() {
    assert!(extract_track_id("https://example.com/song").is_none());
}

#[test]
fn extract_track_id_empty_piece() {
    assert_eq!(extract_track_id("x/track/").unwrap(), "");
}

#[test]
fn parse_media_recognises_catalog_link() {
    match parse_media("https://open.spotify.com/track/42?si=1") {
        MediaRequest::SpotifyTrack(id) => assert_eq!(id, "42"),
        MediaRequest::NotRecognized => panic!("expected a track request"),
    }
}

#[test]
fn parse_media_rejects_other_text() {
    assert!(matches!(
        parse_media("some song name"),
        MediaRequest::NotRecognized
    ));
}

#[test]
fn pause_and_resume_need_loaded_track() {
    let empty = BotMusicState::new();
    assert!(pause(&empty, GUILD).is_none());
    assert!(resume(&empty, GUILD).is_none());

    let mut idle = BotMusicState::new();
    idle.register_session(GUILD, 1, 2);
    assert!(pause(&idle, GUILD).is_none());
    assert!(resume(&idle, GUILD).is_none());

    let playing = playing_state(Some("t"), true);
    assert_eq!(pause(&playing, GUILD), Some(77));
    assert_eq!(resume(&playing, GUILD), Some(77));
}

#[test]
fn skip_without_session_is_silent() {
    let state = BotMusicState::new();
    assert!(matches!(skip(&state, GUILD), SkipOutcome::NoSession));
}

#[test]
fn skip_with_nothing_playing_notices() {
    let mut state = BotMusicState::new();
    state.register_session(GUILD, 1, 2);
    assert!(matches!(skip(&state, GUILD), SkipOutcome::NothingPlaying));
    assert_eq!(
        state.get_session(GUILD).unwrap().voice_state.queue.len(),
        0
    );
}

#[test]
fn skip_reports_handle_and_title() {
    let state = playing_state(Some("Tune"), true);
    match skip(&state, GUILD) {
        SkipOutcome::Skip { handle, title } => {
            assert_eq!(handle, 77);
            assert_eq!(title, "Tune");
        }
        _ => panic!("expected a skip"),
    }
}

#[test]
fn skip_without_title_uses_placeholder() {
    let state = playing_state(None, true);
    match skip(&state, GUILD) {
        SkipOutcome::Skip { title, .. } => assert_eq!(title, "unknown"),
        _ => panic!("expected a skip"),
    }
    let bare = playing_state(None, false);
    match skip(&bare, GUILD) {
        SkipOutcome::Skip { title, .. } => assert_eq!(title, "unknown"),
        _ => panic!("expected a skip"),
    }
}

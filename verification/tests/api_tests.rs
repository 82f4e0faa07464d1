use playbot::channels::ChannelInfo;
use playbot::channels::ChannelKind;
use playbot::channels::RoleInfo;
use playbot::channels::allowed_channel_name;
use playbot::channels::allowed_role_name;
use playbot::channels::category_name;
use playbot::channels::find_category;
use playbot::channels::find_channel_by_name;
use playbot::channels::find_role_by_name;
use playbot::channels::text_channel_exists;
use playbot::spotify::Artist;
use playbot::spotify::Album;
use playbot::spotify::ExternalUrls;
use playbot::spotify::SpotifyError;
use playbot::spotify::SpotifyTrackItem;
use playbot::spotify::bearer_auth_value;
use playbot::spotify::build_search_query;
use playbot::spotify::spotify_error_message;
use playbot::spotify::spotify_track_url;
use playbot::token::SpotifyTokenManager;
use playbot::token::basic_auth_value;
use playbot::token::token_from_response;
use playbot::youtube::ApiId;
use playbot::youtube::ApiItem;
use playbot::youtube::Snippet;
use playbot::youtube::YoutubeError;
use playbot::youtube::convert_search_results;
use playbot::youtube::first_video_id;
use playbot::youtube::youtube_error_message;
use playbot::youtube::youtube_watch_url;

fn urls() -> ExternalUrls {
    ExternalUrls {
        spotify: "https://open.spotify.com/x".to_string(),
    }
}

fn track(name: &str, artists: Vec<Artist>) -> SpotifyTrackItem {
    SpotifyTrackItem {
        id: "id".to_string(),
        name: name.to_string(),
        duration_ms: 1000,
        explicit: false,
        popularity: 1,
        preview_url: None,
        kind: "track".to_string(),
        external_urls: urls(),
        artists,
        album: Album {
            id: "al".to_string(),
            name: "album".to_string(),
            release_date: "2020".to_string(),
            total_tracks: 1,
            kind: "album".to_string(),
            external_urls: urls(),
            images: Vec::new(),
        },
    }
}

fn artist(name: &str) -> Artist {
    Artist {
        id: "ar".to_string(),
        name: name.to_string(),
        kind: "artist".to_string(),
        external_urls: urls(),
    }
}

#[test]
fn catalog_urls_and_headers() {
    assert_eq!(
        spotify_track_url("42"),
        "https://api.spotify.com/v1/tracks/42"
    );
    assert_eq!(bearer_auth_value("tok"), "Bearer tok");
    assert_eq!(
        youtube_watch_url("dQw4"),
        "https://www.youtube.com/watch?v=dQw4"
    );
}

#[test]
fn catalog_error_notices() {
    let spotify_err = SpotifyError {
        status: 404,
        message: "missing".to_string(),
    };
    assert_eq!(spotify_error_message(&spotify_err), "Spotify error 404: missing");

    let youtube_err = YoutubeError {
        code: -3,
        message: "bad".to_string(),
        errors: Vec::new(),
        status: "x".to_string(),
    };
    assert_eq!(youtube_error_message(&youtube_err), "-3 bad");
}

#[test]
fn search_query_uses_first_artist() {
    let with_artist = track("Song", vec![artist("Band"), artist("Other")]);
    assert_eq!(build_search_query(&with_artist), "Song Band");
    let without = track("Song", Vec::new());
    assert_eq!(build_search_query(&without), "Song ");
}

#[test]
fn search_results_convert_in_order() {
    let items = vec![
        ApiItem {
            id: ApiId {
                video_id: "v1".to_string(),
            },
            snippet: Snippet {
                title: "t1".to_string(),
                channel_title: "c1".to_string(),
            },
        },
        ApiItem {
            id: ApiId {
                video_id: "v2".to_string(),
            },
            snippet: Snippet {
                title: "t2".to_string(),
                channel_title: "c2".to_string(),
            },
        },
    ];
    let results = convert_search_results(items);
    assert_eq!(results.len(), 2);
    assert_eq!(results[0].video_id, "v1");
    assert_eq!(results[0].title, "t1");
    assert_eq!(results[0].artist, "c1");
    assert_eq!(results[0].source, "youtube");
    assert_eq!(results[1].video_id, "v2");
    assert_eq!(first_video_id(&results), "v1");
    assert_eq!(first_video_id(&Vec::new()), "");
}

#[test]
fn basic_auth_encodes_credentials() {
    assert_eq!(basic_auth_value("id", "secret"), "Basic aWQ6c2VjcmV0");
    assert_eq!(basic_auth_value("", ""), "Basic Og==");
}

#[test]
fn token_cache_answers_by_expiry() {
    let mut manager = SpotifyTokenManager::new();
    assert!(manager.cached_token(0).is_none());

    let token = token_from_response("abc".to_string(), 60, 1_000);
    assert_eq!(token.expired_at, 61_000);
    assert!(!token.is_expired(60_999));
    assert!(token.is_expired(61_000));

    manager.store_token(token);
    assert_eq!(manager.cached_token(5_000).unwrap(), "abc");
    assert!(manager.cached_token(61_000).is_none());
}

#[test]
fn token_expiry_saturates() {
    let token = token_from_response("t".to_string(), u64::MAX, 5);
    assert_eq!(token.expired_at, u64::MAX);
}

#[test]
fn policy_names() {
    assert_eq!(allowed_channel_name(), "kumar-channel");
    assert_eq!(category_name(), "Bot Channels");
    assert_eq!(allowed_role_name(), "Kumar");
}

fn channel(id: u64, kind: ChannelKind, name: &str, parent: Option<u64>) -> ChannelInfo {
    ChannelInfo {
        id,
        kind,
        name: name.to_string(),
        parent,
    }
}

#[test]
fn channel_lookups() {
    let channels = vec![
        channel(1, ChannelKind::Text, "general", None),
        channel(2, ChannelKind::Category, "Bot Channels", None),
        channel(3, ChannelKind::Text, "kumar-channel", Some(2)),
        channel(4, ChannelKind::Text, "kumar-channel", None),
    ];
    assert_eq!(find_channel_by_name(&channels, "kumar-channel"), Some(3));
    assert_eq!(find_channel_by_name(&channels, "missing"), None);
    assert_eq!(find_category(&channels, "Bot Channels"), Some(2));
    assert_eq!(find_category(&channels, "kumar-channel"), None);
    assert!(text_channel_exists(&channels, "kumar-channel", 2));
    assert!(!text_channel_exists(&channels, "kumar-channel", 9));
    assert!(!text_channel_exists(&channels, "general", 2));
}

#[test]
fn category_must_be_category_kind() {
    let channels = vec![channel(1, ChannelKind::Text, "Bot Channels", None)];
    assert_eq!(find_category(&channels, "Bot Channels"), None);
    assert_eq!(find_channel_by_name(&channels, "Bot Channels"), Some(1));
}

#[test]
fn role_lookup_takes_first() {
    let roles = vec![
        RoleInfo {
            id: 10,
            name: "Other".to_string(),
        },
        RoleInfo {
            id: 11,
            name: "Kumar".to_string(),
        },
        RoleInfo {
            id: 12,
            name: "Kumar".to_string(),
        },
    ];
    assert_eq!(find_role_by_name(&roles, "Kumar"), Some(11));
    assert_eq!(find_role_by_name(&roles, "None"), None);
}

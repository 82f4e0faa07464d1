//! Track-catalog data model and the derived request/notice text.
//!
//! These mirror the catalog service's track descriptor as plain values. The
//! embedding runtime performs the HTTP fetch and hands the decoded descriptor
//! in; everything derived from it (the request URL, the authorization header
//! value, the search query, the error notice) is built and specified here.
use vstd::prelude::*;

use crate::text::spec_dec;
use crate::text::u64_to_string;

verus! {

/// Links a catalog object carries to its public page.
#[derive(Debug)]
pub struct ExternalUrls {
    pub spotify: String,
}

/// One cover image of an album.
#[derive(Debug)]
pub struct Image {
    pub url: String,
    pub width: Option<u32>,
    pub height: Option<u32>,
}

/// One credited artist.
#[derive(Debug)]
pub struct Artist {
    pub id: String,
    pub name: String,
    pub kind: String,
    pub external_urls: ExternalUrls,
}

/// The album a track belongs to.
#[derive(Debug)]
pub struct Album {
    pub id: String,
    pub name: String,
    pub release_date: String,
    pub total_tracks: u32,
    pub kind: String,
    pub external_urls: ExternalUrls,
    pub images: Vec<Image>,
}

/// A track descriptor, as the catalog service returns it.
#[derive(Debug)]
pub struct SpotifyTrackItem {
    pub id: String,
    pub name: String,
    pub duration_ms: u32,
    pub explicit: bool,
    pub popularity: u32,
    pub preview_url: Option<String>,
    pub kind: String,
    pub external_urls: ExternalUrls,
    pub artists: Vec<Artist>,
    pub album: Album,
}

/// The structured error the catalog service returns on failure.
#[derive(Debug)]
pub struct SpotifyError {
    pub status: u16,
    pub message: String,
}

/// The envelope the catalog service wraps its error in.
#[derive(Debug)]
pub struct SpotifyErrorResponse {
    pub error: SpotifyError,
}

/// The catalog endpoint that serves one track by its identifier.
pub fn spotify_track_url(track_id: &str) -> (r: String)
    ensures
        r@ == "https://api.spotify.com/v1/tracks/"@ + track_id@,
{
    String::from_str("https://api.spotify.com/v1/tracks/").concat(track_id)
}

/// The authorization header value carrying a bearer token.
pub fn bearer_auth_value(token: &str) -> (r: String)
    ensures
        r@ == "Bearer "@ + token@,
{
    String::from_str("Bearer ").concat(token)
}

/// The log line for a structured catalog error: its status and message.
pub fn spotify_error_message(err: &SpotifyError) -> (r: String)
    ensures
        r@ == "Spotify error "@ + spec_dec(err.status as int) + ": "@ + err.message@,
{
    let mut r = String::from_str("Spotify error ");
    let status = u64_to_string(err.status as u64);
    r.append(status.as_str());
    r.append(": ");
    r.append(err.message.as_str());
    r
}

/// The text-search query derived from a track descriptor: the track's name,
/// a space, and the first credited artist's name (empty when none is
/// credited, leaving the trailing space).
pub fn build_search_query(track: &SpotifyTrackItem) -> (r: String)
    ensures
        track.artists@.len() > 0 ==> r@ == track.name@ + " "@ + track.artists@[0].name@,
        track.artists@.len() == 0 ==> r@ == track.name@ + " "@,
{
    let mut r = track.name.clone();
    r.append(" ");
    if track.artists.len() > 0 {
        r.append(track.artists[0].name.as_str());
    }
    r
}

} // verus!

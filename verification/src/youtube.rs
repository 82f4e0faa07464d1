//! Video-search data model and the derived request/notice text.
//!
//! These mirror the video-search service's response as plain values. The
//! embedding runtime performs the HTTP search and hands the decoded items
//! in; converting them to search results, picking the video to play, and
//! building the watch URL and error notices happens here.
use vstd::prelude::*;

use crate::text::spec_dec;
use crate::text::u64_to_string;

verus! {

/// The identifier object of a found video.
#[derive(Debug)]
pub struct ApiId {
    pub video_id: String,
}

/// The descriptive part of a found video.
#[derive(Debug)]
pub struct Snippet {
    pub title: String,
    pub channel_title: String,
}

/// One item of a search response.
#[derive(Debug)]
pub struct ApiItem {
    pub id: ApiId,
    pub snippet: Snippet,
}

/// A whole search response.
#[derive(Debug)]
pub struct ApiYoutubeResponse {
    pub items: Vec<ApiItem>,
}

/// One entry of a structured search error.
#[derive(Debug)]
pub struct ErrorMessage {
    pub message: String,
    pub domain: String,
    pub reason: String,
}

/// The structured error the search service returns on failure.
#[derive(Debug)]
pub struct YoutubeError {
    pub code: i32,
    pub message: String,
    pub errors: Vec<ErrorMessage>,
    pub status: String,
}

/// The envelope the search service wraps its error in.
#[derive(Debug)]
pub struct YoutubeErrorResponse {
    pub error: YoutubeError,
}

/// A search hit reduced to what playback needs.
#[derive(Debug)]
pub struct YoutubeSearchResult {
    pub title: String,
    pub artist: String,
    pub video_id: String,
    pub source: String,
}

impl YoutubeSearchResult {
    /// A search result from one response item: the video's title, its
    /// channel as the artist, and its identifier, marked as coming from the
    /// video-search service.
    pub fn from(item: ApiItem) -> (r: Self)
        ensures
            r.title == item.snippet.title,
            r.artist == item.snippet.channel_title,
            r.video_id == item.id.video_id,
            r.source@ == "youtube"@,
    {
        Self {
            title: item.snippet.title,
            artist: item.snippet.channel_title,
            video_id: item.id.video_id,
            source: String::from_str("youtube"),
        }
    }
}

/// Every item of a search response, converted in order.
pub fn convert_search_results(items: Vec<ApiItem>) -> (r: Vec<YoutubeSearchResult>)
    ensures
        r@.len() == items@.len(),
        forall|k: int|
            0 <= k < items@.len() ==> {
                &&& (#[trigger] r@[k]).title == items@[k].snippet.title
                &&& r@[k].artist == items@[k].snippet.channel_title
                &&& r@[k].video_id == items@[k].id.video_id
                &&& r@[k].source@ == "youtube"@
            },
{
    let ghost orig = items@;
    let mut rest = items;
    let mut r: Vec<YoutubeSearchResult> = Vec::new();
    let n = rest.len();
    let mut k: usize = 0;
    while k < n
        invariant
            n == orig.len(),
            rest@ == orig.skip(k as int),
            0 <= k <= n,
            r@.len() == k,
            forall|j: int|
                0 <= j < k ==> {
                    &&& (#[trigger] r@[j]).title == orig[j].snippet.title
                    &&& r@[j].artist == orig[j].snippet.channel_title
                    &&& r@[j].video_id == orig[j].id.video_id
                    &&& r@[j].source@ == "youtube"@
                },
        decreases n - k,
    {
        let item = rest.remove(0);
        proof {
            assert(item == orig[k as int]);
            assert(orig.skip(k as int).remove(0) =~= orig.skip(k + 1));
        }
        r.push(YoutubeSearchResult::from(item));
        k = k + 1;
    }
    r
}

/// The identifier of the first search hit, or empty when there is none: the
/// first hit is the one that gets played.
pub fn first_video_id(results: &Vec<YoutubeSearchResult>) -> (r: String)
    ensures
        results@.len() > 0 ==> r@ == results@[0].video_id@,
        results@.len() == 0 ==> r@.len() == 0,
{
    if results.len() > 0 {
        results[0].video_id.clone()
    } else {
        String::new()
    }
}

/// The public watch URL for a video identifier.
pub fn youtube_watch_url(video_id: &str) -> (r: String)
    ensures
        r@ == "https://www.youtube.com/watch?v="@ + video_id@,
{
    String::from_str("https://www.youtube.com/watch?v=").concat(video_id)
}

/// A signed number written in decimal.
pub open spec fn spec_int_dec(n: int) -> Seq<char> {
    if n < 0 {
        seq!['-'] + spec_dec(-n)
    } else {
        spec_dec(n)
    }
}

/// `n` written in decimal, with its sign.
pub fn i32_to_string(n: i32) -> (r: String)
    ensures
        r@ == spec_int_dec(n as int),
{
    if n < 0 {
        let mag = (-(n as i64)) as u64;
        let mut r = String::from_str("-");
        let digits = u64_to_string(mag);
        r.append(digits.as_str());
        proof {
            reveal_strlit("-");
            assert(("-")@ =~= seq!['-']);
        }
        r
    } else {
        u64_to_string(n as u64)
    }
}

/// The log line for a structured search error: its code and message.
pub fn youtube_error_message(err: &YoutubeError) -> (r: String)
    ensures
        r@ == spec_int_dec(err.code as int) + " "@ + err.message@,
{
    let mut r = i32_to_string(err.code);
    r.append(" ");
    r.append(err.message.as_str());
    r
}

} // verus!

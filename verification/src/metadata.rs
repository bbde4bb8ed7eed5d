//! The metadata lookups: the request URLs that ask for a video or for a
//! playlist's items, and what a reply to each is taken to say.

use crate::error::DownloadError;
use vstd::prelude::*;

verus! {

/// What the process is configured with: the key that every lookup carries.
#[derive(Debug, Clone, PartialEq, Eq)]
pub struct Config {
    pub api_key: String,
}

/// The part of a video's metadata that is read: its title.
#[derive(Debug, Clone, PartialEq, Eq)]
pub struct Snippet {
    pub title: String,
}

/// One video as a lookup describes it. A field that the reply left out is
/// the empty string.
#[derive(Debug, Clone, PartialEq, Eq)]
pub struct VideoInfo {
    pub id: String,
    pub snippet: Snippet,
}

/// The first page of a playlist, in the order of the reply.
#[derive(Debug, Clone, PartialEq, Eq)]
pub struct PlaylistItems {
    pub items: Vec<VideoInfo>,
}

/// The body of a video lookup: the record that the body spells out at its
/// top level, and the records that it lists under `items`.
#[derive(Debug, Clone, PartialEq, Eq)]
pub struct VideoLookup {
    pub record: VideoInfo,
    pub items: Vec<VideoInfo>,
}

/// A video as the contracts speak of it: its id and its title.
pub struct VideoRecord {
    pub id: Seq<char>,
    pub title: Seq<char>,
}

/// A video lookup's body as the contracts speak of it.
pub struct VideoLookupView {
    pub record: VideoRecord,
    pub items: Seq<VideoRecord>,
}

impl View for VideoInfo {
    type V = VideoRecord;

    open spec fn view(&self) -> VideoRecord {
        VideoRecord { id: self.id@, title: self.snippet.title@ }
    }
}

/// The records of `items`, in order.
pub open spec fn records(items: Seq<VideoInfo>) -> Seq<VideoRecord> {
    Seq::new(items.len(), |i: int| items[i]@)
}

impl View for PlaylistItems {
    type V = Seq<VideoRecord>;

    open spec fn view(&self) -> Seq<VideoRecord> {
        records(self.items@)
    }
}

impl View for VideoLookup {
    type V = VideoLookupView;

    open spec fn view(&self) -> VideoLookupView {
        VideoLookupView { record: self.record@, items: records(self.items@) }
    }
}

/// The URL that asks for the metadata of the video `video_id`.
pub open spec fn video_request_url(video_id: Seq<char>, api_key: Seq<char>) -> Seq<char> {
    "https://www.googleapis.com/youtube/v3/videos?part=snippet&id="@ + video_id + "&key="@
        + api_key
}

/// The URL that asks for the first page, of at most 50 items, of the
/// playlist `playlist_id`.
pub open spec fn playlist_request_url(playlist_id: Seq<char>, api_key: Seq<char>) -> Seq<char> {
    "https://www.googleapis.com/youtube/v3/playlistItems?playlistId="@ + playlist_id + "&key="@
        + api_key + "&part=snippet&maxResults=50"@
}

/// Builds the URL of the video lookup for `video_id`.
pub fn video_info_url(video_id: &str, config: &Config) -> (url: String)
    ensures
        url@ == video_request_url(video_id@, config.api_key@),
{
    let mut url = String::from_str("https://www.googleapis.com/youtube/v3/videos?part=snippet&id=");
    url.append(video_id);
    url.append("&key=");
    url.append(config.api_key.as_str());
    url
}

/// Builds the URL of the playlist lookup for `playlist_id`.
pub fn playlist_items_url(playlist_id: &str, config: &Config) -> (url: String)
    ensures
        url@ == playlist_request_url(playlist_id@, config.api_key@),
{
    let mut url = String::from_str(
        "https://www.googleapis.com/youtube/v3/playlistItems?playlistId=",
    );
    url.append(playlist_id);
    url.append("&key=");
    url.append(config.api_key.as_str());
    url.append("&part=snippet&maxResults=50");
    url
}

/// What came back for a lookup.
#[derive(Debug, Clone, PartialEq, Eq)]
pub enum Reply<T> {
    /// The request got no response.
    NoResponse,
    /// A response with this status. `body` is `None` where the body was not
    /// of the shape that the lookup expects.
    Response { status: u16, body: Option<T> },
}

impl<T: View> View for Reply<T> {
    type V = Reply<T::V>;

    open spec fn view(&self) -> Reply<T::V> {
        match *self {
            Reply::NoResponse => Reply::NoResponse,
            Reply::Response { status, body } => Reply::Response {
                status,
                body: match body {
                    Some(body) => Some(body@),
                    None => None,
                },
            },
        }
    }
}

/// Whether `status` is one of the 2xx statuses.
pub open spec fn is_success(status: u16) -> bool {
    200 <= status < 300
}

/// Whether `status` is one of the 2xx statuses.
pub fn status_is_success(status: u16) -> (ok: bool)
    ensures
        ok == is_success(status),
{
    200 <= status && status < 300
}

/// The body that `reply` delivers: that of a 2xx response whose body had
/// the expected shape.
pub open spec fn accepted<T>(reply: Reply<T>) -> Option<T> {
    match reply {
        Reply::NoResponse => None,
        Reply::Response { status, body } => if is_success(status) {
            body
        } else {
            None
        },
    }
}

/// Takes the body out of a reply, or fails with
/// [`DownloadError::MetadataFetch`] where the reply delivers none.
pub fn accept<T>(reply: Reply<T>) -> (r: Result<T, DownloadError>)
    ensures
        r == match accepted(reply) {
            Some(body) => Ok::<T, DownloadError>(body),
            None => Err(DownloadError::MetadataFetch),
        },
{
    match reply {
        Reply::NoResponse => Err(DownloadError::MetadataFetch),
        Reply::Response { status, body } => {
            if status_is_success(status) {
                match body {
                    Some(body) => Ok(body),
                    None => Err(DownloadError::MetadataFetch),
                }
            } else {
                Err(DownloadError::MetadataFetch)
            }
        },
    }
}

/// The position of the first of `items` whose id is `video_id`, or the
/// length of `items` where none has it.
pub open spec fn first_with_id(items: Seq<VideoRecord>, video_id: Seq<char>) -> int
    decreases items.len(),
{
    if items.len() == 0 {
        0
    } else if items[0].id == video_id {
        0
    } else {
        1 + first_with_id(items.drop_first(), video_id)
    }
}

/// `first_with_id` is the least position that holds `video_id`.
pub proof fn lemma_first_with_id(items: Seq<VideoRecord>, video_id: Seq<char>)
    ensures
        0 <= first_with_id(items, video_id) <= items.len(),
        forall|j: int| 0 <= j < first_with_id(items, video_id) ==> items[j].id != video_id,
        first_with_id(items, video_id) < items.len() ==> items[first_with_id(
            items,
            video_id,
        )].id == video_id,
    decreases items.len(),
{
    if items.len() > 0 && items[0].id != video_id {
        let rest = items.drop_first();
        lemma_first_with_id(rest, video_id);
        assert forall|j: int| 0 <= j < first_with_id(items, video_id) implies items[j].id
            != video_id by {
            if j > 0 {
                assert(rest[j - 1] == items[j]);
            }
        }
        if first_with_id(items, video_id) < items.len() {
            assert(rest[first_with_id(rest, video_id)] == items[first_with_id(items, video_id)]);
        }
    }
}

/// The record that a video lookup is taken to answer with, asked for
/// `video_id`: the first listed record with that id; the first listed
/// record where none has that id; and the body's own record where the body
/// lists none.
pub open spec fn selected(lookup: VideoLookupView, video_id: Seq<char>) -> VideoRecord {
    if lookup.items.len() == 0 {
        lookup.record
    } else if first_with_id(lookup.items, video_id) < lookup.items.len() {
        lookup.items[first_with_id(lookup.items, video_id)]
    } else {
        lookup.items[0]
    }
}

/// Picks out of a video lookup's body the record for `video_id`.
pub fn select_video(lookup: VideoLookup, video_id: &str) -> (video: VideoInfo)
    ensures
        video@ == selected(lookup@, video_id@),
        lookup.items.len() == 0 ==> video == lookup.record,
        lookup.items.len() > 0 ==> lookup.items@.contains(video),
        (exists|i: int| 0 <= i < lookup.items.len() && lookup.items[i].id@ == video_id@)
            ==> video.id@ == video_id@,
{
    proof {
        lemma_first_with_id(lookup@.items, video_id@);
    }
    let VideoLookup { record, items } = lookup;
    let mut items = items;
    if items.len() == 0 {
        return record;
    }
    let wanted = String::from_str(video_id);
    let ghost all = records(items@);
    let mut i: usize = 0;
    assert(all.skip(0) == all);
    while i < items.len()
        invariant
            i <= items.len(),
            items@ == lookup.items@,
            all == records(items@),
            wanted@ == video_id@,
            first_with_id(all, video_id@) == i + first_with_id(all.skip(i as int), video_id@),
        decreases items.len() - i,
    {
        assert(all.skip(i as int)[0] == items[i as int]@);
        if items[i].id == wanted {
            assert(first_with_id(all, video_id@) == i);
            return items.swap_remove(i);
        }
        assert(all.skip(i as int).drop_first() == all.skip(i + 1));
        i = i + 1;
    }
    assert(first_with_id(all, video_id@) == all.len());
    assert forall|k: int| 0 <= k < lookup.items.len() implies lookup.items[k].id@
        != video_id@ by {
        assert(all[k].id != video_id@);
    }
    items.swap_remove(0)
}

} // verus!

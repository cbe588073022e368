use vstd::prelude::*;

use crate::bool_string::parse_bool_spec;
use crate::iso_duration::{digits_string, parse_duration_spec, spec_digits};
use crate::text::str_eq;
use crate::youtube::{YtApiError, YtLiveBroadcastContent, YtResource, YtResourceId, YtSearchFilter, YtThumbnail};

verus! {

// ===== The upstream list payload shapes, as plain values =====
//
// The JSON transport that produces these lives with the HTTP collaborator;
// timestamps arrive as seconds since the Unix epoch, durations and the
// boolean-as-string field as the raw strings of the wire format.

/// A resource-list response: a page of items with paging information.
#[derive(Debug)]
pub struct YtList<T> {
    pub etag: String,
    pub next_page_token: Option<String>,
    pub prev_page_token: Option<String>,
    pub page_info: YtListPageInfo,
    pub items: Vec<T>,
}

#[derive(Debug)]
pub struct YtListPageInfo {
    pub total_results: u32,
    pub results_per_page: u32,
}

/// One search result.
#[derive(Debug)]
pub struct YtSearchResult {
    pub etag: String,
    pub id: YtSearchResultId,
    pub snippet: YtSearchResultSnippet,
}

/// The id block of a search result: the kind tag says which id is present.
#[derive(Debug)]
pub struct YtSearchResultId {
    pub kind: String,
    pub video_id: Option<String>,
    pub channel_id: Option<String>,
    pub playlist_id: Option<String>,
}

#[derive(Debug)]
pub struct YtSearchResultSnippet {
    pub published_at: i64,
    pub channel_id: String,
    pub title: String,
    pub description: String,
    pub thumbnails: Vec<YtThumbnail>,
    pub channel_title: String,
    pub live_broadcast_content: YtLiveBroadcastContent,
}

/// One video, as the video endpoint reports it.
#[derive(Debug)]
pub struct YtVideo {
    pub etag: String,
    pub id: String,
    pub snippet: YtVideoSnippet,
    pub content_details: YtVideoContentDetails,
}

#[derive(Debug)]
pub struct YtVideoSnippet {
    pub published_at: i64,
    pub channel_id: String,
    pub title: String,
    pub description: String,
    pub thumbnails: Vec<YtThumbnail>,
    pub channel_title: String,
    pub tags: Vec<String>,
    pub category_id: String,
    pub live_broadcast_content: YtLiveBroadcastContent,
}

#[derive(Debug)]
pub struct YtVideoContentDetails {
    /// Raw wire form, a duration in the `PT#H#M#S` subset.
    pub duration: String,
    pub dimension: YtVideoDimension,
    pub definition: YtVideoDefinition,
    /// Raw wire form, `"true"` or `"false"`.
    pub caption: String,
    pub licensed_content: bool,
    pub region_restriction: Option<YtVideoRegionRestriction>,
    pub projection: YtVideoProjection,
}

#[derive(Clone, Copy, Debug, PartialEq, Eq)]
pub enum YtVideoDimension {
    _2D,
    _3D,
}

#[derive(Clone, Copy, Debug, PartialEq, Eq)]
pub enum YtVideoDefinition {
    SD,
    HD,
}

#[derive(Debug)]
pub struct YtVideoRegionRestriction {
    pub allowed: Vec<String>,
    pub blocked: Vec<String>,
}

#[derive(Clone, Copy, Debug, PartialEq, Eq)]
pub enum YtVideoProjection {
    Rectangular,
    _360,
}

/// One playlist, as the playlist endpoint reports it.
#[derive(Debug)]
pub struct YtPlaylist {
    pub etag: String,
    pub id: String,
    pub snippet: YtPlaylistSnippet,
}

#[derive(Debug)]
pub struct YtPlaylistSnippet {
    pub published_at: i64,
    pub channel_id: String,
    pub title: String,
    pub description: String,
    pub thumbnails: Vec<YtThumbnail>,
    pub channel_title: String,
}

/// One entry of a playlist, as the playlist-items endpoint reports it.
#[derive(Debug)]
pub struct YtPlaylistItem {
    pub etag: String,
    pub id: String,
    pub snippet: YtPlaylistItemSnippet,
    pub content_details: YtPlaylistItemContentDetails,
}

#[derive(Debug)]
pub struct YtPlaylistItemSnippet {
    pub published_at: i64,
    pub channel_id: String,
    pub title: String,
    pub description: String,
    pub thumbnails: Vec<YtThumbnail>,
    pub channel_title: String,
    pub video_owner_channel_title: String,
    pub video_owner_channel_id: String,
    pub playlist_id: String,
    pub position: u32,
    pub resource_id: YtPlaylistItemResourceId,
}

#[derive(Debug)]
pub struct YtPlaylistItemResourceId {
    pub kind: String,
    pub video_id: String,
}

#[derive(Debug)]
pub struct YtPlaylistItemContentDetails {
    pub video_id: String,
    pub note: Option<String>,
    pub video_published_at: i64,
}

// ===== Mapping the payloads into the internal resource model =====

pub open spec fn kind_video() -> Seq<char> {
    "youtube#video"@
}

pub open spec fn kind_playlist() -> Seq<char> {
    "youtube#playlist"@
}

pub open spec fn kind_channel() -> Seq<char> {
    "youtube#channel"@
}

/// The resource id a search-result id block denotes, when its kind tag and
/// the matching id field agree.
pub open spec fn spec_search_result_id(id: YtSearchResultId) -> Option<YtResourceId> {
    if id.kind@ == kind_video() {
        match id.video_id {
            Some(v) => Some(YtResourceId::Video(v)),
            None => None,
        }
    } else if id.kind@ == kind_playlist() {
        match id.playlist_id {
            Some(p) => Some(YtResourceId::Playlist(p)),
            None => None,
        }
    } else if id.kind@ == kind_channel() {
        match id.channel_id {
            Some(c) => Some(YtResourceId::Channel(c)),
            None => None,
        }
    } else {
        None
    }
}

/// The internal resource a search result maps to, when well formed.
pub open spec fn spec_resource_of_search(m: YtSearchResult) -> Option<YtResource> {
    match spec_search_result_id(m.id) {
        Some(rid) => Some(
            YtResource {
                id: rid,
                title: m.snippet.title,
                description: m.snippet.description,
                published_at: m.snippet.published_at,
                channel_id: m.snippet.channel_id,
                channel_title: m.snippet.channel_title,
                thumbnails: m.snippet.thumbnails,
            },
        ),
        None => None,
    }
}

/// The internal resource a playlist item maps to: the video it points at,
/// credited to the video's own channel.
pub open spec fn spec_resource_of_playlist_item(m: YtPlaylistItem) -> YtResource {
    YtResource {
        id: YtResourceId::Video(m.content_details.video_id),
        title: m.snippet.title,
        description: m.snippet.description,
        published_at: m.content_details.video_published_at,
        channel_id: m.snippet.video_owner_channel_id,
        channel_title: m.snippet.video_owner_channel_title,
        thumbnails: m.snippet.thumbnails,
    }
}

/// Maps one search result into the internal model; a result whose kind tag
/// and id fields disagree is an API failure.
pub fn resource_from_search_result(m: YtSearchResult) -> (r: Result<YtResource, YtApiError>)
    ensures
        (match spec_resource_of_search(m) {
            Some(res) => r == Ok::<YtResource, YtApiError>(res),
            None => r == Err::<YtResource, YtApiError>(YtApiError::Api),
        }),
{
    proof {
        reveal_strlit("youtube#video");
        reveal_strlit("youtube#playlist");
        reveal_strlit("youtube#channel");
    }
    let id = if str_eq(m.id.kind.as_str(), "youtube#video") {
        match m.id.video_id {
            Some(v) => YtResourceId::Video(v),
            None => {
                return Err(YtApiError::Api);
            },
        }
    } else if str_eq(m.id.kind.as_str(), "youtube#playlist") {
        match m.id.playlist_id {
            Some(p) => YtResourceId::Playlist(p),
            None => {
                return Err(YtApiError::Api);
            },
        }
    } else if str_eq(m.id.kind.as_str(), "youtube#channel") {
        match m.id.channel_id {
            Some(c) => YtResourceId::Channel(c),
            None => {
                return Err(YtApiError::Api);
            },
        }
    } else {
        return Err(YtApiError::Api);
    };
    Ok(
        YtResource {
            id,
            title: m.snippet.title,
            description: m.snippet.description,
            published_at: m.snippet.published_at,
            channel_id: m.snippet.channel_id,
            channel_title: m.snippet.channel_title,
            thumbnails: m.snippet.thumbnails,
        },
    )
}

/// Maps one playlist item into the internal model.
pub fn resource_from_playlist_item(m: YtPlaylistItem) -> (r: YtResource)
    ensures
        r == spec_resource_of_playlist_item(m),
{
    YtResource {
        id: YtResourceId::Video(m.content_details.video_id),
        title: m.snippet.title,
        description: m.snippet.description,
        published_at: m.content_details.video_published_at,
        channel_id: m.snippet.video_owner_channel_id,
        channel_title: m.snippet.video_owner_channel_title,
        thumbnails: m.snippet.thumbnails,
    }
}

/// Maps a video payload into the internal model, decoding the wire forms of
/// the duration and the boolean-as-string caption field; a payload whose
/// wire fields do not decode is an API failure.
pub fn video_from_model(m: YtVideo) -> (r: Result<crate::youtube::YtVideo, YtApiError>)
    ensures
        (match r {
            Ok(v) => parse_duration_spec(m.content_details.duration@) == Some(
                v.duration_secs as nat,
            ) && parse_bool_spec(m.content_details.caption@) is Some && v.id == m.id && v.title
                == m.snippet.title && v.description == m.snippet.description && v.published_at
                == m.snippet.published_at && v.channel_id == m.snippet.channel_id
                && v.channel_title == m.snippet.channel_title && v.thumbnails
                == m.snippet.thumbnails && v.live_status == m.snippet.live_broadcast_content,
            Err(e) => e == YtApiError::Api && (parse_duration_spec(m.content_details.duration@)
                is None || parse_duration_spec(m.content_details.duration@)->0 > u64::MAX
                || parse_bool_spec(m.content_details.caption@) is None),
        }),
{
    let duration_secs = match crate::iso_duration::deserialize(m.content_details.duration.as_str()) {
        Ok(d) => d,
        Err(_) => {
            return Err(YtApiError::Api);
        },
    };
    match crate::bool_string::deserialize(m.content_details.caption.as_str()) {
        Ok(_) => {},
        Err(_) => {
            return Err(YtApiError::Api);
        },
    };
    Ok(
        crate::youtube::YtVideo {
            id: m.id,
            title: m.snippet.title,
            description: m.snippet.description,
            duration_secs,
            published_at: m.snippet.published_at,
            channel_id: m.snippet.channel_id,
            channel_title: m.snippet.channel_title,
            thumbnails: m.snippet.thumbnails,
            live_status: m.snippet.live_broadcast_content,
        },
    )
}

/// Maps a playlist payload into the internal model; its video list arrives
/// separately and starts out empty.
pub fn playlist_from_model(m: YtPlaylist) -> (r: crate::youtube::YtPlaylist)
    ensures
        r.id == m.id,
        r.title == m.snippet.title,
        r.description == m.snippet.description,
        r.published_at == m.snippet.published_at,
        r.channel_id == m.snippet.channel_id,
        r.channel_title == m.snippet.channel_title,
        r.thumbnails == m.snippet.thumbnails,
        r.videos@.len() == 0,
{
    crate::youtube::YtPlaylist {
        id: m.id,
        title: m.snippet.title,
        description: m.snippet.description,
        published_at: m.snippet.published_at,
        channel_id: m.snippet.channel_id,
        channel_title: m.snippet.channel_title,
        thumbnails: m.snippet.thumbnails,
        videos: Vec::new(),
    }
}

// ===== Whole responses =====

pub open spec fn all_search_results_valid(items: Seq<YtSearchResult>) -> bool {
    forall|i: int| 0 <= i < items.len() ==> spec_resource_of_search(#[trigger] items[i]) is Some
}

/// Maps a whole search response; one malformed result fails the lookup.
#[verifier::loop_isolation(false)]
pub fn search_response(list: YtList<YtSearchResult>) -> (r: Result<Vec<YtResource>, YtApiError>)
    ensures
        (match r {
            Ok(resources) => all_search_results_valid(list.items@) && resources@.len()
                == list.items@.len() && (forall|i: int|
                0 <= i < resources@.len() ==> spec_resource_of_search(list.items@[i]) == Some(
                    #[trigger] resources@[i],
                )),
            Err(e) => e == YtApiError::Api && !all_search_results_valid(list.items@),
        }),
{
    let ghost orig = list.items@;
    let mut items = list.items;
    let mut out: Vec<YtResource> = Vec::new();
    while items.len() > 0
        invariant
            out@.len() + items@.len() == orig.len(),
            items@ == orig.subrange(out@.len() as int, orig.len() as int),
            forall|i: int|
                0 <= i < out@.len() ==> spec_resource_of_search(orig[i]) == Some(
                    #[trigger] out@[i],
                ),
        decreases items@.len(),
    {
        let ghost pre = items@;
        let item = items.remove(0);
        match resource_from_search_result(item) {
            Ok(res) => {
                out.push(res);
                proof {
                    assert(items@ =~= orig.subrange(out@.len() as int, orig.len() as int));
                }
            },
            Err(e) => {
                proof {
                    assert(orig[out@.len() as int] == item);
                    assert(spec_resource_of_search(orig[out@.len() as int]) is None);
                    assert(!all_search_results_valid(orig));
                }
                return Err(e);
            },
        }
    }
    proof {
        assert(out@.len() == orig.len());
        assert forall|i: int| 0 <= i < orig.len() implies spec_resource_of_search(
            #[trigger] orig[i],
        ) is Some by {
            assert(spec_resource_of_search(orig[i]) == Some(out@[i]));
        }
    }
    Ok(out)
}

/// Maps a whole playlist-items response.
#[verifier::loop_isolation(false)]
pub fn playlist_items_response(list: YtList<YtPlaylistItem>) -> (r: Vec<YtResource>)
    ensures
        r@.len() == list.items@.len(),
        forall|i: int|
            0 <= i < r@.len() ==> #[trigger] r@[i] == spec_resource_of_playlist_item(
                list.items@[i],
            ),
{
    let ghost orig = list.items@;
    let mut items = list.items;
    let mut out: Vec<YtResource> = Vec::new();
    while items.len() > 0
        invariant
            out@.len() + items@.len() == orig.len(),
            items@ == orig.subrange(out@.len() as int, orig.len() as int),
            forall|i: int|
                0 <= i < out@.len() ==> #[trigger] out@[i] == spec_resource_of_playlist_item(
                    orig[i],
                ),
        decreases items@.len(),
    {
        let item = items.remove(0);
        let res = resource_from_playlist_item(item);
        out.push(res);
        proof {
            assert(items@ =~= orig.subrange(out@.len() as int, orig.len() as int));
        }
    }
    out
}

/// Picks the single video out of a video response; an empty item list means
/// the id does not exist or is for a different resource type.
pub fn video_response(list: YtList<YtVideo>) -> (r: Result<crate::youtube::YtVideo, YtApiError>)
    ensures
        list.items@.len() == 0 ==> r == Err::<crate::youtube::YtVideo, YtApiError>(
            YtApiError::InvalidId,
        ),
        list.items@.len() > 0 ==> (match r {
            Ok(v) => parse_duration_spec(list.items@[0].content_details.duration@) == Some(
                v.duration_secs as nat,
            ) && parse_bool_spec(list.items@[0].content_details.caption@) is Some && v.id
                == list.items@[0].id && v.title == list.items@[0].snippet.title
                && v.description == list.items@[0].snippet.description && v.published_at
                == list.items@[0].snippet.published_at && v.channel_id
                == list.items@[0].snippet.channel_id && v.channel_title
                == list.items@[0].snippet.channel_title && v.thumbnails
                == list.items@[0].snippet.thumbnails && v.live_status
                == list.items@[0].snippet.live_broadcast_content,
            Err(e) => e == YtApiError::Api && (parse_duration_spec(
                list.items@[0].content_details.duration@,
            ) is None || parse_duration_spec(list.items@[0].content_details.duration@)->0
                > u64::MAX || parse_bool_spec(list.items@[0].content_details.caption@)
                is None),
        }),
{
    let mut items = list.items;
    if items.len() == 0 {
        return Err(YtApiError::InvalidId);
    }
    let first = items.remove(0);
    video_from_model(first)
}

/// Joins the two halves of a playlist lookup: the playlist's own metadata
/// and its ordered item list. An empty metadata list means the id does not
/// exist; a failure in either half fails the whole lookup.
pub fn playlist_response(
    meta: YtList<YtPlaylist>,
    items: YtList<YtPlaylistItem>,
) -> (r: Result<crate::youtube::YtPlaylist, YtApiError>)
    ensures
        meta.items@.len() == 0 ==> r == Err::<crate::youtube::YtPlaylist, YtApiError>(
            YtApiError::InvalidId,
        ),
        meta.items@.len() > 0 ==> (match r {
            Ok(p) => p.id == meta.items@[0].id && p.title == meta.items@[0].snippet.title
                && p.videos@.len() == items.items@.len() && (forall|i: int|
                0 <= i < p.videos@.len() ==> #[trigger] p.videos@[i]
                    == spec_resource_of_playlist_item(items.items@[i])),
            Err(_) => false,
        }),
{
    let mut metas = meta.items;
    if metas.len() == 0 {
        return Err(YtApiError::InvalidId);
    }
    let first = metas.remove(0);
    let mut playlist = playlist_from_model(first);
    playlist.videos = playlist_items_response(items);
    Ok(playlist)
}

// ===== Request URLs =====

pub open spec fn spec_type_str(f: YtSearchFilter) -> Seq<char> {
    match f {
        YtSearchFilter::Videos => "video"@,
        YtSearchFilter::Playlists => "playlist"@,
        YtSearchFilter::Channels => "channel"@,
        YtSearchFilter::Any => "channel,playlist,video"@,
    }
}

pub open spec fn spec_search_url(
    query: Seq<char>,
    f: YtSearchFilter,
    n_results: nat,
    key: Seq<char>,
) -> Seq<char> {
    "https://www.googleapis.com/youtube/v3/search?part=snippet&type="@ + spec_type_str(f)
        + "&q="@ + query + "&maxResults="@ + spec_digits(n_results) + "&key="@ + key
}

pub open spec fn spec_video_url(id: Seq<char>, key: Seq<char>) -> Seq<char> {
    "https://www.googleapis.com/youtube/v3/videos?part=contentDetails,snippet&id="@ + id
        + "&key="@ + key
}

pub open spec fn spec_playlist_meta_url(id: Seq<char>, key: Seq<char>) -> Seq<char> {
    "https://www.googleapis.com/youtube/v3/playlists?part=snippet&id="@ + id + "&key="@ + key
}

pub open spec fn spec_playlist_items_url(id: Seq<char>, key: Seq<char>) -> Seq<char> {
    "https://www.googleapis.com/youtube/v3/playlistItems?part=snippet,contentDetails&playlistId="@
        + id + "&maxResults=50&key="@ + key
}

/// The search request URL for a query.
pub fn search_url(query: &str, filter: YtSearchFilter, n_results: u8, key: &str) -> (r: String)
    ensures
        r@ == spec_search_url(query@, filter, n_results as nat, key@),
{
    let mut out = String::from_str(
        "https://www.googleapis.com/youtube/v3/search?part=snippet&type=",
    );
    match filter {
        YtSearchFilter::Videos => out.append("video"),
        YtSearchFilter::Playlists => out.append("playlist"),
        YtSearchFilter::Channels => out.append("channel"),
        YtSearchFilter::Any => out.append("channel,playlist,video"),
    }
    out.append("&q=");
    out.append(query);
    out.append("&maxResults=");
    let digits = digits_string(n_results as u64);
    out.append(digits.as_str());
    out.append("&key=");
    out.append(key);
    proof {
        assert(out@ =~= spec_search_url(query@, filter, n_results as nat, key@));
    }
    out
}

/// The video-details request URL for an id.
pub fn video_url(id: &str, key: &str) -> (r: String)
    ensures
        r@ == spec_video_url(id@, key@),
{
    let mut out = String::from_str(
        "https://www.googleapis.com/youtube/v3/videos?part=contentDetails,snippet&id=",
    );
    out.append(id);
    out.append("&key=");
    out.append(key);
    proof {
        assert(out@ =~= spec_video_url(id@, key@));
    }
    out
}

/// The playlist-metadata request URL for an id.
pub fn playlist_meta_url(id: &str, key: &str) -> (r: String)
    ensures
        r@ == spec_playlist_meta_url(id@, key@),
{
    let mut out = String::from_str(
        "https://www.googleapis.com/youtube/v3/playlists?part=snippet&id=",
    );
    out.append(id);
    out.append("&key=");
    out.append(key);
    proof {
        assert(out@ =~= spec_playlist_meta_url(id@, key@));
    }
    out
}

/// The playlist-items request URL for an id.
pub fn playlist_items_url(id: &str, key: &str) -> (r: String)
    ensures
        r@ == spec_playlist_items_url(id@, key@),
{
    let mut out = String::from_str(
        "https://www.googleapis.com/youtube/v3/playlistItems?part=snippet,contentDetails&playlistId=",
    );
    out.append(id);
    out.append("&maxResults=50&key=");
    out.append(key);
    proof {
        assert(out@ =~= spec_playlist_items_url(id@, key@));
    }
    out
}

} // verus!

use vstd::prelude::*;

use crate::rate_limit::{spec_check, RateLimitTracker};

verus! {

/// Why a metadata lookup failed.
#[derive(Debug, PartialEq, Eq)]
pub enum YtApiError {
    /// Transport-level failure, with the transport's own message.
    Request(String),
    /// The upstream API answered with an unexpected status or payload.
    Api,
    /// The provided id does not exist, or is for a different resource type.
    InvalidId,
    /// The upstream API's quota for today is used up.
    QuotaExceeded,
}

/// Which resource kinds a search asks for.
#[derive(Clone, Copy, Debug, PartialEq, Eq)]
pub enum YtSearchFilter {
    Videos,
    Playlists,
    Channels,
    Any,
}

/// The sizes the upstream API offers thumbnails in.
#[derive(Clone, Copy, Debug, PartialEq, Eq, Hash)]
pub enum YtThumbnailSize {
    Default,
    Medium,
    High,
    Standard,
    Maxres,
}

/// One thumbnail variant.
#[derive(Debug)]
pub struct YtThumbnailInfo {
    pub url: String,
    pub width: u32,
    pub height: u32,
}

/// A thumbnail variant together with its size class. The set a resource
/// carries holds each size at most once.
#[derive(Debug)]
pub struct YtThumbnail {
    pub size: YtThumbnailSize,
    pub info: YtThumbnailInfo,
}

/// Live-broadcast status of a video.
#[derive(Clone, Copy, Debug, PartialEq, Eq)]
pub enum YtLiveBroadcastContent {
    NotLive,
    Live,
    Upcoming,
}

/// The identity of a resource, tagged by its kind.
#[derive(Debug, PartialEq, Eq)]
pub enum YtResourceId {
    Video(String),
    Playlist(String),
    Channel(String),
}

/// A resource as the search endpoint reports it.
#[derive(Debug)]
pub struct YtResource {
    pub id: YtResourceId,
    pub title: String,
    pub description: String,
    /// Publication time, as seconds since the Unix epoch.
    pub published_at: i64,
    pub channel_id: String,
    pub channel_title: String,
    pub thumbnails: Vec<YtThumbnail>,
}

/// A video with the details only the video endpoint reports.
#[derive(Debug)]
pub struct YtVideo {
    pub id: String,
    pub title: String,
    pub description: String,
    pub duration_secs: u64,
    /// Publication time, as seconds since the Unix epoch.
    pub published_at: i64,
    pub channel_id: String,
    pub channel_title: String,
    pub thumbnails: Vec<YtThumbnail>,
    pub live_status: YtLiveBroadcastContent,
}

/// A playlist with its ordered video list.
#[derive(Debug)]
pub struct YtPlaylist {
    pub id: String,
    pub title: String,
    pub description: String,
    /// Publication time, as seconds since the Unix epoch.
    pub published_at: i64,
    pub channel_id: String,
    pub channel_title: String,
    pub thumbnails: Vec<YtThumbnail>,
    pub videos: Vec<YtResource>,
}

// ===== Canonical watch URLs =====

pub open spec fn spec_video_url(id: Seq<char>) -> Seq<char> {
    "https://www.youtube.com/watch?v="@ + id
}

pub open spec fn spec_playlist_url(id: Seq<char>) -> Seq<char> {
    "https://www.youtube.com/playlist?list="@ + id
}

pub open spec fn spec_channel_url(id: Seq<char>) -> Seq<char> {
    "https://www.youtube.com/channel/"@ + id
}

impl YtResource {
    /// The canonical URL of the resource.
    pub fn get_yt_url(&self) -> (r: String)
        ensures
            (match self.id {
                YtResourceId::Video(ref id) => r@ == spec_video_url(id@),
                YtResourceId::Playlist(ref id) => r@ == spec_playlist_url(id@),
                YtResourceId::Channel(ref id) => r@ == spec_channel_url(id@),
            }),
    {
        match &self.id {
            YtResourceId::Video(id) => {
                let mut r = String::from_str("https://www.youtube.com/watch?v=");
                r.append(id.as_str());
                r
            },
            YtResourceId::Playlist(id) => {
                let mut r = String::from_str("https://www.youtube.com/playlist?list=");
                r.append(id.as_str());
                r
            },
            YtResourceId::Channel(id) => {
                let mut r = String::from_str("https://www.youtube.com/channel/");
                r.append(id.as_str());
                r
            },
        }
    }
}

impl YtVideo {
    /// The canonical watch URL of the video.
    pub fn get_yt_url(&self) -> (r: String)
        ensures
            r@ == spec_video_url(self.id@),
    {
        let mut r = String::from_str("https://www.youtube.com/watch?v=");
        r.append(self.id.as_str());
        r
    }

    /// The resource view of the video, as the search endpoint would report
    /// it.
    pub fn into_resource(self) -> (r: YtResource)
        ensures
            r.id == YtResourceId::Video(self.id),
            r.title == self.title,
            r.description == self.description,
            r.published_at == self.published_at,
            r.channel_id == self.channel_id,
            r.channel_title == self.channel_title,
            r.thumbnails == self.thumbnails,
    {
        YtResource {
            id: YtResourceId::Video(self.id),
            title: self.title,
            description: self.description,
            published_at: self.published_at,
            channel_id: self.channel_id,
            channel_title: self.channel_title,
            thumbnails: self.thumbnails,
        }
    }
}

impl YtPlaylist {
    /// The canonical URL of the playlist.
    pub fn get_yt_url(&self) -> (r: String)
        ensures
            r@ == spec_playlist_url(self.id@),
    {
        let mut r = String::from_str("https://www.youtube.com/playlist?list=");
        r.append(self.id.as_str());
        r
    }

    /// The resource view of the playlist, as the search endpoint would
    /// report it.
    pub fn into_resource(self) -> (r: YtResource)
        ensures
            r.id == YtResourceId::Playlist(self.id),
            r.title == self.title,
            r.description == self.description,
            r.published_at == self.published_at,
            r.channel_id == self.channel_id,
            r.channel_title == self.channel_title,
            r.thumbnails == self.thumbnails,
    {
        YtResource {
            id: YtResourceId::Playlist(self.id),
            title: self.title,
            description: self.description,
            published_at: self.published_at,
            channel_id: self.channel_id,
            channel_title: self.channel_title,
            thumbnails: self.thumbnails,
        }
    }
}

// ===== The client's rate-limit policy =====

/// The decision core of the metadata client: whether requests may be issued
/// at all, and the shared quota state. The HTTP transport that carries the
/// requests is an external collaborator.
#[derive(Debug)]
pub struct YoutubeClient {
    /// Present when an API key is configured; without one every lookup is
    /// rejected as quota-exhausted.
    api_key: Option<String>,
    tracker: RateLimitTracker,
}

impl YoutubeClient {
    pub closed spec fn has_api_key(&self) -> bool {
        self.api_key is Some
    }

    pub closed spec fn key(&self) -> Seq<char> {
        self.api_key->0@
    }

    pub closed spec fn marker(&self) -> Option<i32> {
        self.tracker.marker()
    }

    pub fn new(yt_api_key: Option<String>) -> (r: YoutubeClient)
        ensures
            r.has_api_key() == (yt_api_key is Some),
            yt_api_key matches Some(k) ==> r.key() == k@,
            r.marker() is None,
    {
        YoutubeClient { api_key: yt_api_key, tracker: RateLimitTracker::new() }
    }

    /// Consults the rate-limit policy before any upstream request: without a
    /// configured key, or while the quota is exhausted for the day, the
    /// lookup fails with `QuotaExceeded` and no network call is made.
    pub fn begin_request(&mut self, today: i32) -> (r: Result<(), YtApiError>)
        ensures
            final(self).has_api_key() == old(self).has_api_key(),
            final(self).has_api_key() ==> final(self).key() == old(self).key(),
            (match r {
                Ok(_) => old(self).has_api_key() && !spec_check(old(self).marker(), today).0
                    && final(self).marker() == spec_check(old(self).marker(), today).1,
                Err(e) => e == YtApiError::QuotaExceeded && (!old(self).has_api_key()
                    || spec_check(old(self).marker(), today).0) && (old(self).has_api_key()
                    ==> final(self).marker() == spec_check(old(self).marker(), today).1) && (
                !old(self).has_api_key() ==> final(self).marker() == old(self).marker()),
            }),
    {
        if self.api_key.is_none() {
            return Err(YtApiError::QuotaExceeded);
        }
        if self.tracker.is_exhausted(today) {
            return Err(YtApiError::QuotaExceeded);
        }
        Ok(())
    }

    /// Whether lookups are currently rejected for quota reasons: no key is
    /// configured, or the quota is exhausted and the given day has not moved
    /// past the marker, which is cleared lazily.
    pub fn is_ratelimited(&mut self, today: i32) -> (r: bool)
        ensures
            final(self).has_api_key() == old(self).has_api_key(),
            final(self).has_api_key() ==> final(self).key() == old(self).key(),
            (if old(self).has_api_key() {
                (r, final(self).marker()) == spec_check(old(self).marker(), today)
            } else {
                r && final(self).marker() == old(self).marker()
            }),
    {
        if self.api_key.is_none() {
            return true;
        }
        self.tracker.is_exhausted(today)
    }

    /// The configured API key, for building request URLs.
    pub fn api_key(&self) -> (r: Option<&String>)
        ensures
            (match r {
                Some(k) => self.has_api_key() && k@ == self.key(),
                None => !self.has_api_key(),
            }),
    {
        self.api_key.as_ref()
    }

    /// Prepares a search: consults the rate-limit policy and, when requests
    /// may be issued, yields the request URL for the upstream search
    /// endpoint.
    pub fn search_request(
        &mut self,
        query: &str,
        filter: YtSearchFilter,
        n_results: u8,
        today: i32,
    ) -> (r: Result<String, YtApiError>)
        ensures
            final(self).has_api_key() == old(self).has_api_key(),
            final(self).has_api_key() ==> final(self).key() == old(self).key(),
            (match r {
                Ok(url) => old(self).has_api_key() && !spec_check(old(self).marker(), today).0
                    && url@ == crate::yt_api::spec_search_url(
                    query@,
                    filter,
                    n_results as nat,
                    old(self).key(),
                ),
                Err(e) => e == YtApiError::QuotaExceeded && (!old(self).has_api_key()
                    || spec_check(old(self).marker(), today).0),
            }),
    {
        self.begin_request(today)?;
        let key = match self.api_key.as_ref() {
            Some(k) => k,
            None => {
                return Err(YtApiError::QuotaExceeded);
            },
        };
        Ok(crate::yt_api::search_url(query, filter, n_results, key.as_str()))
    }

    /// Prepares a video lookup: the rate-limit policy, then the request URL
    /// for the upstream video endpoint.
    pub fn video_request(&mut self, id: &str, today: i32) -> (r: Result<String, YtApiError>)
        ensures
            final(self).has_api_key() == old(self).has_api_key(),
            final(self).has_api_key() ==> final(self).key() == old(self).key(),
            (match r {
                Ok(url) => old(self).has_api_key() && !spec_check(old(self).marker(), today).0
                    && url@ == crate::yt_api::spec_video_url(id@, old(self).key()),
                Err(e) => e == YtApiError::QuotaExceeded && (!old(self).has_api_key()
                    || spec_check(old(self).marker(), today).0),
            }),
    {
        self.begin_request(today)?;
        let key = match self.api_key.as_ref() {
            Some(k) => k,
            None => {
                return Err(YtApiError::QuotaExceeded);
            },
        };
        Ok(crate::yt_api::video_url(id, key.as_str()))
    }

    /// Prepares a playlist lookup: the rate-limit policy, then the two
    /// request URLs whose responses are joined into one playlist — the
    /// playlist's own metadata and its item list.
    pub fn playlist_requests(&mut self, id: &str, today: i32) -> (r: Result<
        (String, String),
        YtApiError,
    >)
        ensures
            final(self).has_api_key() == old(self).has_api_key(),
            final(self).has_api_key() ==> final(self).key() == old(self).key(),
            (match r {
                Ok(urls) => old(self).has_api_key() && !spec_check(old(self).marker(), today).0
                    && urls.0@ == crate::yt_api::spec_playlist_meta_url(id@, old(self).key())
                    && urls.1@ == crate::yt_api::spec_playlist_items_url(
                    id@,
                    old(self).key(),
                ),
                Err(e) => e == YtApiError::QuotaExceeded && (!old(self).has_api_key()
                    || spec_check(old(self).marker(), today).0),
            }),
    {
        self.begin_request(today)?;
        let key = match self.api_key.as_ref() {
            Some(k) => k,
            None => {
                return Err(YtApiError::QuotaExceeded);
            },
        };
        Ok(
            (
                crate::yt_api::playlist_meta_url(id, key.as_str()),
                crate::yt_api::playlist_items_url(id, key.as_str()),
            ),
        )
    }

    /// Records that the upstream API rejected a request for quota reasons.
    pub fn mark_exhausted(&mut self, today: i32)
        ensures
            final(self).has_api_key() == old(self).has_api_key(),
            final(self).has_api_key() ==> final(self).key() == old(self).key(),
            final(self).marker() == Some(today),
    {
        self.tracker.mark_exhausted(today);
    }

    /// Classifies an upstream response status, under the policy that an
    /// authorization-class response means the daily quota is gone: it marks
    /// the tracker and fails with `QuotaExceeded`; any other non-success
    /// status is a generic API failure.
    pub fn process_status(&mut self, status: u16, today: i32) -> (r: Result<(), YtApiError>)
        ensures
            final(self).has_api_key() == old(self).has_api_key(),
            final(self).has_api_key() ==> final(self).key() == old(self).key(),
            (match r {
                Ok(_) => status == 200 && final(self).marker() == old(self).marker(),
                Err(e) => (if status == 403 {
                    e == YtApiError::QuotaExceeded && final(self).marker() == Some(today)
                } else {
                    status != 200 && e == YtApiError::Api && final(self).marker() == old(
                        self,
                    ).marker()
                }),
            }),
    {
        if status == 200 {
            Ok(())
        } else if status == 403 {
            self.tracker.mark_exhausted(today);
            Err(YtApiError::QuotaExceeded)
        } else {
            Err(YtApiError::Api)
        }
    }
}

} // verus!

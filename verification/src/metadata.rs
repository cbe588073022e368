use vstd::prelude::*;

verus! {

/// The fallback title and author when a source carries none.
pub open spec fn spec_unknown() -> Seq<char> {
    seq!['U', 'n', 'k', 'n', 'o', 'w', 'n']
}

/// The fallback source URL when a source carries none.
pub open spec fn spec_fallback_url() -> Seq<char> {
    "https://example.com"@
}

/// Minimal metadata required by the playback commands. Immutable once
/// attached to a queue entry.
#[derive(Debug)]
pub struct TrackMetadata {
    pub title: String,
    pub author: String,
    pub duration_secs: u64,
    pub source_url: String,
    pub requested_by: Option<u64>,
}

impl Default for TrackMetadata {
    /// The placeholder used when nothing is known about a track.
    fn default() -> (r: TrackMetadata)
        ensures
            r.title@ == spec_unknown(),
            r.author@ == spec_unknown(),
            r.duration_secs == 0,
            r.source_url@ == spec_fallback_url(),
            r.requested_by is None,
    {
        let title = String::from_str("Unknown");
        let author = String::from_str("Unknown");
        proof {
            reveal_strlit("Unknown");
            assert(title@ =~= spec_unknown());
        }
        TrackMetadata {
            title,
            author,
            duration_secs: 0,
            source_url: String::from_str("https://example.com"),
            requested_by: None,
        }
    }
}

impl TrackMetadata {
    /// The metadata with the identity of the requesting user attached.
    pub fn from_with_request(value: TrackMetadata, requested_by: u64) -> (r: TrackMetadata)
        ensures
            r.title == value.title,
            r.author == value.author,
            r.duration_secs == value.duration_secs,
            r.source_url == value.source_url,
            r.requested_by == Some(requested_by),
    {
        TrackMetadata { requested_by: Some(requested_by), ..value }
    }

    /// The metadata a resolved video carries, pointing back at its
    /// canonical watch URL.
    pub fn from_yt_video(value: crate::youtube::YtVideo) -> (r: TrackMetadata)
        ensures
            r.source_url@ == crate::youtube::spec_video_url(value.id@),
            r.title == value.title,
            r.author == value.channel_title,
            r.duration_secs == value.duration_secs,
            r.requested_by is None,
    {
        let source_url = value.get_yt_url();
        TrackMetadata {
            title: value.title,
            author: value.channel_title,
            duration_secs: value.duration_secs,
            source_url,
            requested_by: None,
        }
    }

    /// Builds metadata from whatever fields an auxiliary lookup produced,
    /// falling back to the placeholders for anything absent.
    pub fn from_aux_parts(
        title: Option<String>,
        artist: Option<String>,
        duration_secs: Option<u64>,
        source_url: Option<String>,
    ) -> (r: TrackMetadata)
        ensures
            (match title {
                Some(t) => r.title == t,
                None => r.title@ == spec_unknown(),
            }),
            (match artist {
                Some(a) => r.author == a,
                None => r.author@ == spec_unknown(),
            }),
            (match duration_secs {
                Some(d) => r.duration_secs == d,
                None => r.duration_secs == 0,
            }),
            (match source_url {
                Some(u) => r.source_url == u,
                None => r.source_url@ == spec_fallback_url(),
            }),
            r.requested_by is None,
    {
        let title = match title {
            Some(t) => t,
            None => {
                let t = String::from_str("Unknown");
                proof {
                    reveal_strlit("Unknown");
                    assert(t@ =~= spec_unknown());
                }
                t
            },
        };
        let author = match artist {
            Some(a) => a,
            None => {
                let a = String::from_str("Unknown");
                proof {
                    reveal_strlit("Unknown");
                    assert(a@ =~= spec_unknown());
                }
                a
            },
        };
        TrackMetadata {
            title,
            author,
            duration_secs: match duration_secs {
                Some(d) => d,
                None => 0,
            },
            source_url: match source_url {
                Some(u) => u,
                None => String::from_str("https://example.com"),
            },
            requested_by: None,
        }
    }
}

} // verus!

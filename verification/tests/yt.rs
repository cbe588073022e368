use gerbot::commands::{
    check_call, loop_command, now_playing, play, playlist_id_from_results,
    playlist_source_plan, preload_time, resolution_plan, shuffle_resources, skip, stop,
    video_autocomplete_plan, AutocompletePlan, CommandError, PlaylistSource,
};
use gerbot::metadata::TrackMetadata;
use gerbot::queue::QueueEntry;
use gerbot::session::{GetCallError, GuildSession, GuildSessionRegistry};
use gerbot::youtube::{
    YoutubeClient, YtApiError, YtLiveBroadcastContent, YtResource, YtResourceId,
    YtSearchFilter,
};
use gerbot::yt_api;
use gerbot::yt_url::{extract_ids_from_parts, get_yt_id_from_url, QueryPair, UrlParts};

#[test]
fn short_link_yields_video_id() {
    let ids = get_yt_id_from_url("https://youtu.be/AbC123");
    assert_eq!(ids.video_id.as_deref(), Some("AbC123"));
    assert_eq!(ids.playlist_id, None);
}

#[test]
fn long_link_yields_video_and_playlist_ids() {
    let ids = get_yt_id_from_url("https://www.youtube.com/watch?v=AbC123&list=PL1");
    assert_eq!(ids.video_id.as_deref(), Some("AbC123"));
    assert_eq!(ids.playlist_id.as_deref(), Some("PL1"));
}

#[test]
fn unrelated_url_yields_neither_id() {
    let ids = get_yt_id_from_url("https://example.com/watch?v=AbC123");
    assert_eq!(ids.video_id, None);
    assert_eq!(ids.playlist_id, None);
    let ids = get_yt_id_from_url("not a url at all");
    assert_eq!(ids.video_id, None);
    assert_eq!(ids.playlist_id, None);
}

#[test]
fn bare_youtube_domain_counts_as_long_link() {
    let ids = get_yt_id_from_url("https://music.youtube.com/watch?v=xyz");
    assert_eq!(ids.video_id.as_deref(), Some("xyz"));
}

#[test]
fn extraction_over_parts_reads_first_matching_pair() {
    let parts = UrlParts {
        domain: Some("www.youtube.com".to_owned()),
        path: "/watch".to_owned(),
        query: vec![
            QueryPair { key: "x".to_owned(), value: "1".to_owned() },
            QueryPair { key: "v".to_owned(), value: "first".to_owned() },
            QueryPair { key: "v".to_owned(), value: "second".to_owned() },
        ],
    };
    let ids = extract_ids_from_parts(&parts);
    assert_eq!(ids.video_id.as_deref(), Some("first"));
    assert_eq!(ids.playlist_id, None);
}

#[test]
fn short_link_id_is_path_without_slash() {
    let parts = UrlParts {
        domain: Some("youtu.be".to_owned()),
        path: "/AbC123".to_owned(),
        query: vec![],
    };
    let ids = extract_ids_from_parts(&parts);
    assert_eq!(ids.video_id.as_deref(), Some("AbC123"));
}

fn search_result(kind: &str, vid: Option<&str>, pl: Option<&str>, ch: Option<&str>) -> yt_api::YtSearchResult {
    yt_api::YtSearchResult {
        etag: "etag".to_owned(),
        id: yt_api::YtSearchResultId {
            kind: kind.to_owned(),
            video_id: vid.map(str::to_owned),
            channel_id: ch.map(str::to_owned),
            playlist_id: pl.map(str::to_owned),
        },
        snippet: yt_api::YtSearchResultSnippet {
            published_at: 1_700_000_000,
            channel_id: "chan".to_owned(),
            title: "Title".to_owned(),
            description: "Desc".to_owned(),
            thumbnails: vec![],
            channel_title: "Channel".to_owned(),
            live_broadcast_content: YtLiveBroadcastContent::NotLive,
        },
    }
}

#[test]
fn search_result_mapping_by_kind() {
    let video = yt_api::resource_from_search_result(search_result(
        "youtube#video",
        Some("v1"),
        None,
        None,
    ))
    .unwrap();
    assert_eq!(video.id, YtResourceId::Video("v1".to_owned()));
    assert_eq!(video.title, "Title");

    let playlist = yt_api::resource_from_search_result(search_result(
        "youtube#playlist",
        None,
        Some("p1"),
        None,
    ))
    .unwrap();
    assert_eq!(playlist.id, YtResourceId::Playlist("p1".to_owned()));

    let channel = yt_api::resource_from_search_result(search_result(
        "youtube#channel",
        None,
        None,
        Some("c1"),
    ))
    .unwrap();
    assert_eq!(channel.id, YtResourceId::Channel("c1".to_owned()));

    assert!(matches!(
        yt_api::resource_from_search_result(search_result("youtube#other", None, None, None)),
        Err(YtApiError::Api)
    ));
    // kind tag present but the matching id missing
    assert!(matches!(
        yt_api::resource_from_search_result(search_result("youtube#video", None, None, None)),
        Err(YtApiError::Api)
    ));
}

fn list<T>(items: Vec<T>) -> yt_api::YtList<T> {
    yt_api::YtList {
        etag: "etag".to_owned(),
        next_page_token: None,
        prev_page_token: None,
        page_info: yt_api::YtListPageInfo { total_results: 1, results_per_page: 1 },
        items,
    }
}

fn video_model(id: &str, duration: &str, caption: &str) -> yt_api::YtVideo {
    yt_api::YtVideo {
        etag: "etag".to_owned(),
        id: id.to_owned(),
        snippet: yt_api::YtVideoSnippet {
            published_at: 1_700_000_000,
            channel_id: "chan".to_owned(),
            title: "Video Title".to_owned(),
            description: "Desc".to_owned(),
            thumbnails: vec![],
            channel_title: "Channel".to_owned(),
            tags: vec![],
            category_id: "10".to_owned(),
            live_broadcast_content: YtLiveBroadcastContent::NotLive,
        },
        content_details: yt_api::YtVideoContentDetails {
            duration: duration.to_owned(),
            dimension: yt_api::YtVideoDimension::_2D,
            definition: yt_api::YtVideoDefinition::HD,
            caption: caption.to_owned(),
            licensed_content: false,
            region_restriction: None,
            projection: yt_api::YtVideoProjection::Rectangular,
        },
    }
}

#[test]
fn video_mapping_decodes_wire_fields() {
    let v = yt_api::video_from_model(video_model("v1", "PT1H2M3S", "true")).unwrap();
    assert_eq!(v.id, "v1");
    assert_eq!(v.duration_secs, 3723);
    assert_eq!(v.title, "Video Title");
}

#[test]
fn video_mapping_rejects_bad_wire_fields() {
    assert!(yt_api::video_from_model(video_model("v1", "one hour", "true")).is_err());
    assert!(yt_api::video_from_model(video_model("v1", "PT1H", "yes")).is_err());
}

#[test]
fn video_response_picks_first_item_or_invalid_id() {
    assert_eq!(
        yt_api::video_response(list::<yt_api::YtVideo>(vec![])).unwrap_err(),
        YtApiError::InvalidId
    );
    let v = yt_api::video_response(list(vec![video_model("v1", "PT10S", "false")])).unwrap();
    assert_eq!(v.duration_secs, 10);
}

fn playlist_item(video_id: &str, title: &str) -> yt_api::YtPlaylistItem {
    yt_api::YtPlaylistItem {
        etag: "etag".to_owned(),
        id: "item".to_owned(),
        snippet: yt_api::YtPlaylistItemSnippet {
            published_at: 1_700_000_000,
            channel_id: "chan".to_owned(),
            title: title.to_owned(),
            description: "Desc".to_owned(),
            thumbnails: vec![],
            channel_title: "Playlist Owner".to_owned(),
            video_owner_channel_title: "Video Owner".to_owned(),
            video_owner_channel_id: "owner".to_owned(),
            playlist_id: "pl".to_owned(),
            position: 0,
            resource_id: yt_api::YtPlaylistItemResourceId {
                kind: "youtube#video".to_owned(),
                video_id: video_id.to_owned(),
            },
        },
        content_details: yt_api::YtPlaylistItemContentDetails {
            video_id: video_id.to_owned(),
            note: None,
            video_published_at: 1_700_000_001,
        },
    }
}

fn playlist_model(id: &str) -> yt_api::YtPlaylist {
    yt_api::YtPlaylist {
        etag: "etag".to_owned(),
        id: id.to_owned(),
        snippet: yt_api::YtPlaylistSnippet {
            published_at: 1_700_000_000,
            channel_id: "chan".to_owned(),
            title: "Playlist Title".to_owned(),
            description: "Desc".to_owned(),
            thumbnails: vec![],
            channel_title: "Channel".to_owned(),
        },
    }
}

#[test]
fn playlist_response_joins_both_halves() {
    assert_eq!(
        yt_api::playlist_response(
            list::<yt_api::YtPlaylist>(vec![]),
            list(vec![playlist_item("v1", "First")]),
        )
        .unwrap_err(),
        YtApiError::InvalidId
    );
    let p = yt_api::playlist_response(
        list(vec![playlist_model("pl1")]),
        list(vec![playlist_item("v1", "First"), playlist_item("v2", "Second")]),
    )
    .unwrap();
    assert_eq!(p.id, "pl1");
    assert_eq!(p.videos.len(), 2);
    assert_eq!(p.videos[0].id, YtResourceId::Video("v1".to_owned()));
    assert_eq!(p.videos[0].channel_title, "Video Owner");
    assert_eq!(p.videos[1].title, "Second");
}

#[test]
fn request_urls_are_built_exactly() {
    assert_eq!(
        yt_api::search_url("cats", YtSearchFilter::Videos, 5, "KEY"),
        "https://www.googleapis.com/youtube/v3/search?part=snippet&type=video&q=cats&maxResults=5&key=KEY"
    );
    assert_eq!(
        yt_api::search_url("q", YtSearchFilter::Any, 25, "K"),
        "https://www.googleapis.com/youtube/v3/search?part=snippet&type=channel,playlist,video&q=q&maxResults=25&key=K"
    );
    assert_eq!(
        yt_api::video_url("v1", "KEY"),
        "https://www.googleapis.com/youtube/v3/videos?part=contentDetails,snippet&id=v1&key=KEY"
    );
    assert_eq!(
        yt_api::playlist_meta_url("pl", "KEY"),
        "https://www.googleapis.com/youtube/v3/playlists?part=snippet&id=pl&key=KEY"
    );
    assert_eq!(
        yt_api::playlist_items_url("pl", "KEY"),
        "https://www.googleapis.com/youtube/v3/playlistItems?part=snippet,contentDetails&playlistId=pl&maxResults=50&key=KEY"
    );
}

#[test]
fn canonical_urls_from_resources() {
    let v = YtResource {
        id: YtResourceId::Video("v1".to_owned()),
        title: String::new(),
        description: String::new(),
        published_at: 0,
        channel_id: String::new(),
        channel_title: String::new(),
        thumbnails: vec![],
    };
    assert_eq!(v.get_yt_url(), "https://www.youtube.com/watch?v=v1");
    let p = YtResource { id: YtResourceId::Playlist("p1".to_owned()), ..v };
    assert_eq!(p.get_yt_url(), "https://www.youtube.com/playlist?list=p1");
    let c = YtResource { id: YtResourceId::Channel("c1".to_owned()), ..p };
    assert_eq!(c.get_yt_url(), "https://www.youtube.com/channel/c1");
}

#[test]
fn client_without_key_rejects_lookups() {
    let mut client = YoutubeClient::new(None);
    assert_eq!(client.begin_request(2_460_000), Err(YtApiError::QuotaExceeded));
}

#[test]
fn client_quota_cycle() {
    let day = 2_460_000;
    let mut client = YoutubeClient::new(Some("KEY".to_owned()));
    assert!(client.begin_request(day).is_ok());
    // an authorization-class response exhausts the quota for the day
    assert_eq!(client.process_status(403, day), Err(YtApiError::QuotaExceeded));
    assert_eq!(client.begin_request(day), Err(YtApiError::QuotaExceeded));
    // the next day it clears lazily
    assert!(client.begin_request(day + 1).is_ok());
    // other statuses
    assert!(client.process_status(200, day + 1).is_ok());
    assert_eq!(client.process_status(500, day + 1), Err(YtApiError::Api));
    assert!(client.begin_request(day + 1).is_ok());
}

#[test]
fn client_reports_rate_limit_state() {
    let day = 2_460_000;
    let mut unkeyed = YoutubeClient::new(None);
    assert!(unkeyed.is_ratelimited(day));
    let mut client = YoutubeClient::new(Some("KEY".to_owned()));
    assert!(!client.is_ratelimited(day));
    let _ = client.process_status(403, day);
    assert!(client.is_ratelimited(day));
    assert!(!client.is_ratelimited(day + 1));
}

#[test]
fn check_call_requires_shared_channel() {
    assert_eq!(check_call(None, true, Some(1), Some(1)), Err(GetCallError::NotInGuild));
    assert_eq!(
        check_call(Some(9), false, Some(1), Some(1)),
        Err(GetCallError::SongbirdNotFound)
    );
    assert_eq!(check_call(Some(9), true, None, Some(1)), Err(GetCallError::NotInCall));
    assert_eq!(check_call(Some(9), true, Some(1), None), Err(GetCallError::NotInCall));
    assert_eq!(check_call(Some(9), true, Some(1), Some(2)), Err(GetCallError::NotInCall));
    assert_eq!(check_call(Some(9), true, Some(1), Some(1)), Ok(1));
}

#[test]
fn get_call_error_maps_to_command_error() {
    assert_eq!(CommandError::from(GetCallError::NotInGuild), CommandError::NotInGuild);
    assert_eq!(
        CommandError::from(GetCallError::SongbirdNotFound),
        CommandError::SongbirdNotFound
    );
    assert_eq!(CommandError::from(GetCallError::NotInCall), CommandError::NotInCall);
}

fn meta(title: &str) -> TrackMetadata {
    TrackMetadata {
        title: title.to_owned(),
        author: "Author".to_owned(),
        duration_secs: 3723,
        source_url: "https://example.com/t".to_owned(),
        requested_by: None,
    }
}

fn entry(title: &str) -> QueueEntry {
    QueueEntry { source: "src".to_owned(), metadata: meta(title), looping: false }
}

#[test]
fn play_with_skip_queue_interrupts_current() {
    let mut session = GuildSession::new(1);
    assert!(!play(&mut session, entry("a"), false));
    assert!(!play(&mut session, entry("b"), false));
    let must_stop = play(&mut session, entry("urgent"), true);
    assert!(must_stop);
    let titles: Vec<&str> = session
        .queue
        .list()
        .iter()
        .map(|e| e.metadata.title.as_str())
        .collect();
    assert_eq!(titles, ["a", "urgent", "b"]);
}

#[test]
fn skip_stop_loop_commands_on_session() {
    let mut session = GuildSession::new(1);
    assert_eq!(skip(&mut session).unwrap_err(), CommandError::QueueEmpty);
    assert_eq!(stop(&mut session).unwrap_err(), CommandError::QueueEmpty);
    assert_eq!(loop_command(&mut session).unwrap_err(), CommandError::QueueEmpty);
    play(&mut session, entry("a"), false);
    play(&mut session, entry("b"), false);
    assert_eq!(loop_command(&mut session), Ok(true));
    let out = skip(&mut session).unwrap();
    assert_eq!(out.skipped.metadata.title, "a");
    assert_eq!(out.next_title.as_deref(), Some("b"));
    assert!(stop(&mut session).is_ok());
    assert!(session.queue.is_empty());
}

#[test]
fn leave_destroys_the_session() {
    let mut reg = GuildSessionRegistry::new();
    assert_eq!(
        gerbot::commands::leave(&mut reg, 1).unwrap_err(),
        CommandError::NotInCall
    );
    let s = reg.get_or_create(1);
    reg.put(s);
    assert!(gerbot::commands::leave(&mut reg, 1).is_ok());
    assert!(!reg.contains(1));
}

#[test]
fn now_playing_reports_current_track() {
    let mut session = GuildSession::new(1);
    assert_eq!(
        now_playing(&session, 0).unwrap_err(),
        CommandError::QueueEmpty
    );
    play(&mut session, entry("a"), false);
    let info = now_playing(&session, 61).unwrap();
    assert_eq!(info.title, "a");
    assert_eq!(info.position, "01:01");
    assert_eq!(info.duration, "01:02:03");
    assert!(!info.looping);
}

#[test]
fn preload_time_five_seconds_before_end() {
    assert_eq!(preload_time(100), 95);
    assert_eq!(preload_time(5), 0);
    assert_eq!(preload_time(3), 0);
}

#[test]
fn autocomplete_plans() {
    assert!(matches!(video_autocomplete_plan("ab"), AutocompletePlan::KeepTyping));
    match video_autocomplete_plan("https://youtu.be/AbC123") {
        AutocompletePlan::Lookup(id) => assert_eq!(id, "AbC123"),
        other => panic!("unexpected plan: {other:?}"),
    }
    assert!(matches!(
        video_autocomplete_plan("https://example.com/song"),
        AutocompletePlan::PassThrough
    ));
    assert!(matches!(
        video_autocomplete_plan("http: the musical"),
        AutocompletePlan::PassThrough
    ));
    assert!(matches!(video_autocomplete_plan("lofi beats"), AutocompletePlan::Search));
}

#[test]
fn playlist_plans() {
    match playlist_source_plan("https://www.youtube.com/playlist?list=PL1") {
        PlaylistSource::FromUrl(id) => assert_eq!(id, "PL1"),
        PlaylistSource::NeedSearch => panic!("expected an id"),
    }
    assert!(matches!(playlist_source_plan("chill mix"), PlaylistSource::NeedSearch));

    assert_eq!(playlist_id_from_results(vec![]), None);
    let pl = YtResource {
        id: YtResourceId::Playlist("PL9".to_owned()),
        title: String::new(),
        description: String::new(),
        published_at: 0,
        channel_id: String::new(),
        channel_title: String::new(),
        thumbnails: vec![],
    };
    assert_eq!(playlist_id_from_results(vec![pl]), Some("PL9".to_owned()));
}

#[test]
fn resolution_plan_classifies_sources() {
    let plan = resolution_plan("https://youtu.be/AbC123");
    assert!(plan.from_url);
    assert_eq!(plan.video_id.as_deref(), Some("AbC123"));
    let plan = resolution_plan("https://example.com/x");
    assert!(plan.from_url);
    assert_eq!(plan.video_id, None);
    let plan = resolution_plan("some search text");
    assert!(!plan.from_url);
    assert_eq!(plan.video_id, None);
}

#[test]
fn shuffle_keeps_the_same_tracks() {
    let mk = |t: &str| YtResource {
        id: YtResourceId::Video(t.to_owned()),
        title: t.to_owned(),
        description: String::new(),
        published_at: 0,
        channel_id: String::new(),
        channel_title: String::new(),
        thumbnails: vec![],
    };
    let mut v: Vec<YtResource> = ["a", "b", "c", "d", "e"].iter().map(|t| mk(t)).collect();
    shuffle_resources(&mut v);
    assert_eq!(v.len(), 5);
    let mut titles: Vec<&str> = v.iter().map(|r| r.title.as_str()).collect();
    titles.sort_unstable();
    assert_eq!(titles, ["a", "b", "c", "d", "e"]);
}

#[test]
fn metadata_fallbacks() {
    let d = TrackMetadata::default();
    assert_eq!(d.title, "Unknown");
    assert_eq!(d.author, "Unknown");
    assert_eq!(d.duration_secs, 0);
    assert_eq!(d.source_url, "https://example.com");
    assert_eq!(d.requested_by, None);

    let m = TrackMetadata::from_aux_parts(
        Some("T".to_owned()),
        None,
        Some(9),
        None,
    );
    assert_eq!(m.title, "T");
    assert_eq!(m.author, "Unknown");
    assert_eq!(m.duration_secs, 9);
    assert_eq!(m.source_url, "https://example.com");

    let m = TrackMetadata::from_with_request(m, 123);
    assert_eq!(m.requested_by, Some(123));
}

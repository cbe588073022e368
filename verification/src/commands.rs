use vstd::prelude::*;

use crate::arbiter::JoinVoiceError;
use crate::iso_duration::{digits_string, spec_digits};
use crate::metadata::TrackMetadata;
use crate::queue::{QueueEntry, QueueError};
use crate::session::{GetCallError, GuildSession, GuildSessionRegistry};
use crate::youtube::{YtResource, YtResourceId};
use crate::yt_url::{get_yt_id_from_url, spec_playlist_id, spec_video_id, url_parts_of};

verus! {

/// The failures a command can answer with; the framework renders them.
#[derive(Debug, PartialEq, Eq)]
pub enum CommandError {
    /// A gateway failure, with the transport's own message.
    Serenity(String),
    /// Joining a voice channel failed.
    JoinVoice(JoinVoiceError),
    /// Leaving a voice channel failed.
    LeaveVoice,
    /// The command was not called from a guild.
    NotInGuild,
    /// The voice transport could not be reached.
    SongbirdNotFound,
    /// The author is not in a voice channel.
    UserNotInVoice,
    /// The author is not in a voice channel with the bot.
    NotInCall,
    /// No track is currently playing.
    QueueEmpty,
}

impl From<GetCallError> for CommandError {
    fn from(value: GetCallError) -> (r: CommandError) {
        match value {
            GetCallError::NotInGuild => CommandError::NotInGuild,
            GetCallError::SongbirdNotFound => CommandError::SongbirdNotFound,
            GetCallError::NotInCall => CommandError::NotInCall,
        }
    }
}

impl vstd::std_specs::convert::FromSpecImpl<GetCallError> for CommandError {
    open spec fn obeys_from_spec() -> bool {
        true
    }

    open spec fn from_spec(value: GetCallError) -> CommandError {
        match value {
            GetCallError::NotInGuild => CommandError::NotInGuild,
            GetCallError::SongbirdNotFound => CommandError::SongbirdNotFound,
            GetCallError::NotInCall => CommandError::NotInCall,
        }
    }
}

// ===== The shared pre-check every in-call command makes =====

/// Checks that a command may act on the guild's call: the command came from
/// a guild, the voice transport is reachable, the guild has a session in a
/// channel, and the author is in that very channel. Yields that channel.
pub fn check_call(
    guild_id: Option<u64>,
    songbird_present: bool,
    bot_channel: Option<u64>,
    user_channel: Option<u64>,
) -> (r: Result<u64, GetCallError>)
    ensures
        (match r {
            Ok(c) => guild_id is Some && songbird_present && bot_channel == Some(c)
                && user_channel == Some(c),
            Err(e) => (match e {
                GetCallError::NotInGuild => guild_id is None,
                GetCallError::SongbirdNotFound => guild_id is Some && !songbird_present,
                GetCallError::NotInCall => guild_id is Some && songbird_present && (
                bot_channel is None || user_channel is None || bot_channel != user_channel),
            }),
        }),
{
    if guild_id.is_none() {
        return Err(GetCallError::NotInGuild);
    }
    if !songbird_present {
        return Err(GetCallError::SongbirdNotFound);
    }
    let bot = match bot_channel {
        Some(c) => c,
        None => {
            return Err(GetCallError::NotInCall);
        },
    };
    let user = match user_channel {
        Some(c) => c,
        None => {
            return Err(GetCallError::NotInCall);
        },
    };
    if bot != user {
        return Err(GetCallError::NotInCall);
    }
    Ok(user)
}

// ===== Track preparation =====

/// The queue entry for a resolved source: the metadata is attributed to the
/// requesting user, and the loop flag starts cleared.
pub fn make_queue_entry(source: String, metadata: TrackMetadata, requested_by: u64) -> (r:
    QueueEntry)
    ensures
        r.source == source,
        r.metadata.title == metadata.title,
        r.metadata.author == metadata.author,
        r.metadata.duration_secs == metadata.duration_secs,
        r.metadata.source_url == metadata.source_url,
        r.metadata.requested_by == Some(requested_by),
        !r.looping,
{
    QueueEntry {
        source,
        metadata: TrackMetadata::from_with_request(metadata, requested_by),
        looping: false,
    }
}

/// How far into a track its successor should start preloading: five seconds
/// before the end, saturating at the start.
pub fn preload_time(duration_secs: u64) -> (r: u64)
    ensures
        duration_secs >= 5 ==> r == duration_secs - 5,
        duration_secs < 5 ==> r == 0,
{
    if duration_secs >= 5 {
        duration_secs - 5
    } else {
        0
    }
}

/// How a play command's source string is resolved to a playable track: a
/// parseable URL is handed to the player as it stands (with its video id
/// extracted for the metadata lookup); anything else becomes a search.
#[derive(Debug)]
pub struct ResolutionPlan {
    /// Whether the source string is a URL.
    pub from_url: bool,
    /// The video id, when the source is a recognized video URL.
    pub video_id: Option<String>,
}

/// Decides how the play command resolves its source string.
pub fn resolution_plan(source: &str) -> (r: ResolutionPlan)
    ensures
        r.from_url == (url_parts_of(source@) is Some),
        crate::yt_url::opt_str_view(r.video_id) == spec_video_id(url_parts_of(source@)),
{
    match crate::yt_url::parse_url(source) {
        Some(parts) => {
            let ids = crate::yt_url::extract_ids_from_parts(&parts);
            ResolutionPlan { from_url: true, video_id: ids.video_id }
        },
        None => ResolutionPlan { from_url: false, video_id: None },
    }
}

// ===== Command cores, applied to the checked-out session =====

/// Plays a track in the session: the entry is enqueued, and with
/// `skip_queue` it is placed right after the current entry, which is then
/// to be stopped so playback advances to the new one. Reports whether the
/// caller must signal that stop.
pub fn play(session: &mut GuildSession, entry: QueueEntry, skip_queue: bool) -> (r: bool)
    ensures
        final(session).guild_id == old(session).guild_id,
        final(session).channel_id == old(session).channel_id,
        final(session).queue@.len() == old(session).queue@.len() + 1,
        r == (skip_queue && old(session).queue@.len() >= 1),
        (if skip_queue && old(session).queue@.len() >= 1 {
            final(session).queue@ == seq![old(session).queue@[0], entry] + old(
                session,
            ).queue@.subrange(1, old(session).queue@.len() as int)
        } else {
            final(session).queue@ == old(session).queue@.push(entry)
        }),
{
    let outcome = session.queue.enqueue(entry, skip_queue);
    outcome.stop_current
}

/// What the skip command reports back.
#[derive(Debug)]
pub struct SkipOutcome {
    /// The entry that was removed.
    pub skipped: QueueEntry,
    /// The title of the entry now playing, if any.
    pub next_title: Option<String>,
}

/// Skips the currently playing track.
pub fn skip(session: &mut GuildSession) -> (r: Result<SkipOutcome, CommandError>)
    ensures
        final(session).guild_id == old(session).guild_id,
        final(session).channel_id == old(session).channel_id,
        (match r {
            Ok(out) => old(session).queue@.len() > 0 && out.skipped == old(session).queue@[0]
                && final(session).queue@ == old(session).queue@.subrange(
                1,
                old(session).queue@.len() as int,
            ) && (match out.next_title {
                Some(t) => final(session).queue@.len() > 0 && t@ == final(session).queue@[0].metadata.title@,
                None => final(session).queue@.len() == 0,
            }),
            Err(e) => e == CommandError::QueueEmpty && old(session).queue@.len() == 0 && final(session).queue@ == old(session).queue@,
        }),
{
    let skipped = match session.queue.skip() {
        Ok(entry) => entry,
        Err(QueueError::QueueEmpty) => {
            return Err(CommandError::QueueEmpty);
        },
    };
    let next_title = match session.queue.current() {
        Some(entry) => Some(entry.metadata.title.clone()),
        None => None,
    };
    Ok(SkipOutcome { skipped, next_title })
}

/// Stops playback and clears the queue; stopping an already empty queue is
/// a usage error.
pub fn stop(session: &mut GuildSession) -> (r: Result<(), CommandError>)
    ensures
        final(session).guild_id == old(session).guild_id,
        final(session).channel_id == old(session).channel_id,
        (match r {
            Ok(_) => old(session).queue@.len() > 0 && final(session).queue@.len() == 0,
            Err(e) => e == CommandError::QueueEmpty && old(session).queue@.len() == 0 && final(session).queue@ == old(session).queue@,
        }),
{
    match session.queue.stop() {
        Ok(_) => Ok(()),
        Err(QueueError::QueueEmpty) => Err(CommandError::QueueEmpty),
    }
}

/// Flips the loop flag on the current track and reports the new state.
pub fn loop_command(session: &mut GuildSession) -> (r: Result<bool, CommandError>)
    ensures
        final(session).guild_id == old(session).guild_id,
        final(session).channel_id == old(session).channel_id,
        (match r {
            Ok(now_looping) => old(session).queue@.len() > 0 && now_looping == !old(session).queue@[0].looping && final(session).queue@.len() == old(session).queue@.len()
                && final(session).queue@[0].looping == now_looping,
            Err(e) => e == CommandError::QueueEmpty && old(session).queue@.len() == 0 && final(session).queue@ == old(session).queue@,
        }),
{
    match session.queue.toggle_loop() {
        Ok(now_looping) => Ok(now_looping),
        Err(QueueError::QueueEmpty) => Err(CommandError::QueueEmpty),
    }
}

/// Leaves the guild's voice channel: the session is destroyed, and the
/// caller issues the formal leave to the transport. A guild without a
/// session is not in a call.
pub fn leave(registry: &mut GuildSessionRegistry, guild_id: u64) -> (r: Result<
    (),
    CommandError,
>)
    requires
        old(registry).wf(),
    ensures
        final(registry).wf(),
        final(registry)@ == old(registry)@.remove(guild_id),
        r is Ok <==> old(registry)@.contains_key(guild_id),
        r is Err ==> r == Err::<(), CommandError>(CommandError::NotInCall),
{
    if registry.remove(guild_id) {
        Ok(())
    } else {
        Err(CommandError::NotInCall)
    }
}

// ===== Rendering a playback position =====

/// Two-digit zero padding for clock components.
pub open spec fn spec_pad2(n: nat) -> Seq<char> {
    if n < 10 {
        seq!['0'] + spec_digits(n)
    } else {
        spec_digits(n)
    }
}

/// A duration as a clock string: hours only when present, minutes and
/// seconds always, each two digits.
pub open spec fn spec_format_duration(n: nat) -> Seq<char> {
    let h = n / 3600;
    let m = (n % 3600) / 60;
    let s = n % 60;
    (if h != 0 {
        spec_pad2(h) + seq![':']
    } else {
        Seq::<char>::empty()
    }) + spec_pad2(m) + seq![':'] + spec_pad2(s)
}

fn pad2(n: u64) -> (r: String)
    ensures
        r@ == spec_pad2(n as nat),
{
    if n < 10 {
        let mut out = String::from_str("0");
        let ds = digits_string(n);
        out.append(ds.as_str());
        proof {
            reveal_strlit("0");
            assert(out@ =~= spec_pad2(n as nat));
        }
        out
    } else {
        digits_string(n)
    }
}

/// Renders a number of seconds as the clock string shown to users.
pub fn format_duration(secs: u64) -> (r: String)
    ensures
        r@ == spec_format_duration(secs as nat),
{
    let h = secs / 3600;
    let m = (secs % 3600) / 60;
    let s = secs % 60;
    let mut out = if h != 0 {
        let mut o = pad2(h);
        o.append(":");
        o
    } else {
        String::new()
    };
    let ms = pad2(m);
    out.append(ms.as_str());
    out.append(":");
    let ss = pad2(s);
    out.append(ss.as_str());
    proof {
        reveal_strlit(":");
        assert(out@ =~= spec_format_duration(secs as nat));
    }
    out
}

/// What the now-playing command shows about the current track.
#[derive(Debug)]
pub struct NowPlayingInfo {
    pub title: String,
    pub author: String,
    pub source_url: String,
    pub requested_by: Option<u64>,
    /// The playback position, as a clock string.
    pub position: String,
    /// The track's full length, as a clock string.
    pub duration: String,
    pub looping: bool,
}

/// Collects what the now-playing command shows, given the playback position
/// the transport reports. Fails when nothing is playing.
pub fn now_playing(session: &GuildSession, position_secs: u64) -> (r: Result<
    NowPlayingInfo,
    CommandError,
>)
    ensures
        (match r {
            Ok(info) => session.queue@.len() > 0 && info.title@
                == session.queue@[0].metadata.title@ && info.author@
                == session.queue@[0].metadata.author@ && info.source_url@
                == session.queue@[0].metadata.source_url@ && info.requested_by
                == session.queue@[0].metadata.requested_by && info.position@
                == spec_format_duration(position_secs as nat) && info.duration@
                == spec_format_duration(session.queue@[0].metadata.duration_secs as nat)
                && info.looping == session.queue@[0].looping,
            Err(e) => e == CommandError::QueueEmpty && session.queue@.len() == 0,
        }),
{
    let entry = match session.queue.current() {
        Some(e) => e,
        None => {
            return Err(CommandError::QueueEmpty);
        },
    };
    Ok(
        NowPlayingInfo {
            title: entry.metadata.title.clone(),
            author: entry.metadata.author.clone(),
            source_url: entry.metadata.source_url.clone(),
            requested_by: match entry.metadata.requested_by {
                Some(u) => Some(u),
                None => None,
            },
            position: format_duration(position_secs),
            duration: format_duration(entry.metadata.duration_secs),
            looping: entry.looping,
        },
    )
}

// ===== Autocomplete planning =====

/// What an autocomplete invocation should do with the partial input.
#[derive(Debug)]
pub enum AutocompletePlan {
    /// The input is too short for useful suggestions.
    KeepTyping,
    /// The input is a recognized URL: look the id up and suggest its title.
    Lookup(String),
    /// The input is some other URL: offer it unchanged.
    PassThrough,
    /// Free text: run a search for suggestions.
    Search,
}

pub open spec fn spec_has_url_prefix(s: Seq<char>) -> bool {
    (s.len() >= 6 && s.subrange(0, 6) == "https:"@) || (s.len() >= 5 && s.subrange(0, 5)
        == "http:"@)
}

/// Decides what the video autocomplete does with the partial input.
pub fn video_autocomplete_plan(partial: &str) -> (r: AutocompletePlan)
    ensures
        partial@.len() < 3 ==> r is KeepTyping,
        partial@.len() >= 3 ==> (match spec_video_id(url_parts_of(partial@)) {
            Some(id) => r matches AutocompletePlan::Lookup(p) && p@ == id,
            None => (if spec_has_url_prefix(partial@) {
                r is PassThrough
            } else {
                r is Search
            }),
        }),
{
    if partial.unicode_len() < 3 {
        return AutocompletePlan::KeepTyping;
    }
    let ids = get_yt_id_from_url(partial);
    if let Some(id) = ids.video_id {
        return AutocompletePlan::Lookup(id);
    }
    if has_url_prefix(partial) {
        return AutocompletePlan::PassThrough;
    }
    AutocompletePlan::Search
}

/// Decides what the playlist autocomplete does with the partial input.
pub fn playlist_autocomplete_plan(partial: &str) -> (r: AutocompletePlan)
    ensures
        partial@.len() < 3 ==> r is KeepTyping,
        partial@.len() >= 3 ==> (match spec_playlist_id(url_parts_of(partial@)) {
            Some(id) => r matches AutocompletePlan::Lookup(p) && p@ == id,
            None => r is Search,
        }),
{
    if partial.unicode_len() < 3 {
        return AutocompletePlan::KeepTyping;
    }
    let ids = get_yt_id_from_url(partial);
    if let Some(id) = ids.playlist_id {
        return AutocompletePlan::Lookup(id);
    }
    AutocompletePlan::Search
}

/// Whether the input spells out a URL scheme, so that a search that merely
/// starts with "http" is still told apart from a link.
fn has_url_prefix(s: &str) -> (r: bool)
    ensures
        r == spec_has_url_prefix(s@),
{
    proof {
        reveal_strlit("https:");
        reveal_strlit("http:");
    }
    let n = s.unicode_len();
    if n >= 6 {
        let head = s.substring_char(0, 6);
        if crate::text::str_eq(head, "https:") {
            return true;
        }
    }
    if n >= 5 {
        let head = s.substring_char(0, 5);
        if crate::text::str_eq(head, "http:") {
            return true;
        }
    }
    false
}

// ===== The playlist command's source resolution =====

/// Where the playlist command gets its playlist id from.
#[derive(Debug)]
pub enum PlaylistSource {
    /// The source string was a playlist URL carrying this id.
    FromUrl(String),
    /// The source is free text: search for a playlist first.
    NeedSearch,
}

/// Decides how the playlist command resolves its source string.
pub fn playlist_source_plan(source: &str) -> (r: PlaylistSource)
    ensures
        (match spec_playlist_id(url_parts_of(source@)) {
            Some(id) => r matches PlaylistSource::FromUrl(p) && p@ == id,
            None => r is NeedSearch,
        }),
{
    let ids = get_yt_id_from_url(source);
    match ids.playlist_id {
        Some(id) => PlaylistSource::FromUrl(id),
        None => PlaylistSource::NeedSearch,
    }
}

/// Picks the playlist id out of a single-result playlist search, as the
/// playlist command uses it: the last result must be a playlist.
pub fn playlist_id_from_results(results: Vec<YtResource>) -> (r: Option<String>)
    ensures
        (match r {
            Some(id) => results@.len() > 0 && results@.last().id == YtResourceId::Playlist(id),
            None => results@.len() == 0 || !(results@.last().id is Playlist),
        }),
{
    let mut results = results;
    match results.pop() {
        Some(res) => match res.id {
            YtResourceId::Playlist(id) => Some(id),
            _ => None,
        },
        None => None,
    }
}

/// Puts a playlist's videos into a random order before they are enqueued.
///
/// Relies on `rand::seq::SliceRandom::shuffle` with `rand::rng`: a permutation
/// of the slice in place.
#[verifier::external_body]
pub fn shuffle_resources(videos: &mut Vec<YtResource>)
    ensures
        final(videos)@.len() == old(videos)@.len(),
        final(videos)@.to_multiset() == old(videos)@.to_multiset(),
{
    rand::seq::SliceRandom::shuffle(videos.as_mut_slice(), &mut rand::rng());
}

} // verus!

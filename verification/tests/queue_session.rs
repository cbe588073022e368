use gerbot::arbiter::{arbitrate, JoinDecision};
use gerbot::commands;
use gerbot::metadata::TrackMetadata;
use gerbot::monitor::{handle_voice_state_change, AutoLeaveAction, VoiceMemberState};
use gerbot::queue::{PlaybackQueue, QueueEntry, QueueError};
use gerbot::rate_limit::RateLimitTracker;
use gerbot::session::{GuildSession, GuildSessionRegistry};

fn entry(title: &str) -> QueueEntry {
    QueueEntry {
        source: format!("https://example.com/{title}"),
        metadata: TrackMetadata {
            title: title.to_owned(),
            author: "Author".to_owned(),
            duration_secs: 100,
            source_url: format!("https://example.com/{title}"),
            requested_by: Some(7),
        },
        looping: false,
    }
}

#[test]
fn enqueue_appends_at_end() {
    let mut q = PlaybackQueue::new();
    let out = q.enqueue(entry("a"), false);
    assert!(!out.stop_current);
    assert_eq!(out.metadata.title, "a");
    q.enqueue(entry("b"), false);
    let titles: Vec<&str> = q.list().iter().map(|e| e.metadata.title.as_str()).collect();
    assert_eq!(titles, ["a", "b"]);
}

#[test]
fn enqueue_at_front_places_entry_at_index_one_and_signals_stop() {
    let mut q = PlaybackQueue::new();
    q.enqueue(entry("current"), false);
    q.enqueue(entry("next"), false);
    let out = q.enqueue(entry("urgent"), true);
    assert!(out.stop_current);
    let titles: Vec<&str> = q.list().iter().map(|e| e.metadata.title.as_str()).collect();
    assert_eq!(titles, ["current", "urgent", "next"]);
}

#[test]
fn enqueue_at_front_of_empty_queue_signals_nothing() {
    let mut q = PlaybackQueue::new();
    let out = q.enqueue(entry("only"), true);
    assert!(!out.stop_current);
    assert_eq!(q.len(), 1);
}

#[test]
fn skip_on_empty_queue_fails_and_does_not_mutate() {
    let mut q = PlaybackQueue::new();
    assert_eq!(q.skip().unwrap_err(), QueueError::QueueEmpty);
    assert!(q.is_empty());
    assert_eq!(q.len(), 0);
}

#[test]
fn skip_removes_current_and_advances() {
    let mut q = PlaybackQueue::new();
    q.enqueue(entry("a"), false);
    q.enqueue(entry("b"), false);
    let removed = q.skip().unwrap();
    assert_eq!(removed.metadata.title, "a");
    assert_eq!(q.current().unwrap().metadata.title, "b");
}

#[test]
fn toggle_loop_flips_current_entry() {
    let mut q = PlaybackQueue::new();
    assert_eq!(q.toggle_loop().unwrap_err(), QueueError::QueueEmpty);
    q.enqueue(entry("a"), false);
    assert_eq!(q.toggle_loop(), Ok(true));
    assert!(q.current().unwrap().looping);
    assert_eq!(q.toggle_loop(), Ok(false));
    assert!(!q.current().unwrap().looping);
}

#[test]
fn stop_clears_queue_and_rejects_empty() {
    let mut q = PlaybackQueue::new();
    assert_eq!(q.stop().unwrap_err(), QueueError::QueueEmpty);
    q.enqueue(entry("a"), false);
    q.enqueue(entry("b"), false);
    assert!(q.stop().is_ok());
    assert!(q.is_empty());
}

#[test]
fn track_end_replays_looping_entry_and_advances_otherwise() {
    let mut q = PlaybackQueue::new();
    q.enqueue(entry("a"), false);
    q.enqueue(entry("b"), false);
    q.toggle_loop().unwrap();
    q.on_track_end();
    assert_eq!(q.current().unwrap().metadata.title, "a");
    q.toggle_loop().unwrap();
    q.on_track_end();
    assert_eq!(q.current().unwrap().metadata.title, "b");
    q.on_track_end();
    assert!(q.is_empty());
    q.on_track_end();
    assert!(q.is_empty());
}

#[test]
fn arbitration_three_way_branch() {
    assert_eq!(arbitrate(None, 5), JoinDecision::Join);
    assert_eq!(arbitrate(Some(5), 5), JoinDecision::Reuse);
    assert_eq!(arbitrate(Some(4), 5), JoinDecision::Occupied);
}

#[test]
fn serialized_joins_allow_at_most_one() {
    // Two requests for the same guild, decided one after the other under the
    // guild's lock: the first joins, the second only ever reuses or is
    // rejected.
    let mut session = GuildSession::new(1);
    assert_eq!(arbitrate(session.channel_id, 10), JoinDecision::Join);
    session.apply_join_success(10);
    assert_eq!(arbitrate(session.channel_id, 11), JoinDecision::Occupied);
    assert_eq!(session.channel_id, Some(10));
    assert_eq!(arbitrate(session.channel_id, 10), JoinDecision::Reuse);
}

#[test]
fn registry_keeps_one_session_per_guild() {
    let mut reg = GuildSessionRegistry::new();
    assert!(reg.get(1).is_none());
    let s = reg.get_or_create(1);
    assert_eq!(s.guild_id, 1);
    reg.put(s);
    assert!(reg.contains(1));
    let again = reg.get_or_create(1);
    // While checked out, the guild has no second session.
    assert!(!reg.contains(1));
    reg.put(again);
    assert!(reg.contains(1));
    assert!(reg.remove(1));
    assert!(!reg.contains(1));
    assert!(!reg.remove(1));
}

#[test]
fn rate_limit_daily_cycle() {
    let mut t = RateLimitTracker::new();
    let day = 2_460_000;
    assert!(!t.is_exhausted(day));
    t.mark_exhausted(day);
    assert!(t.is_exhausted(day));
    assert!(t.is_exhausted(day));
    // first call on the next day clears the marker
    assert!(!t.is_exhausted(day + 1));
    assert!(!t.is_exhausted(day + 1));
    assert!(!t.is_exhausted(day));
}

#[test]
fn force_disconnect_with_queued_tracks_stops_queue() {
    let mut session = GuildSession::new(1);
    session.queue.enqueue(entry("a"), false);
    session.channel_id = None;
    let members = vec![];
    let action = handle_voice_state_change(&mut session, &members, 99);
    assert_eq!(action, AutoLeaveAction::StopOnly);
    assert!(session.queue.is_empty());
}

#[test]
fn alone_in_channel_triggers_stop_and_leave_exactly_once() {
    let mut session = GuildSession::new(1);
    session.apply_join_success(42);
    session.queue.enqueue(entry("a"), false);
    // the last other member has left channel 42; only the bot remains
    let members = vec![
        VoiceMemberState { user_id: 99, channel_id: Some(42) },
        VoiceMemberState { user_id: 7, channel_id: None },
        VoiceMemberState { user_id: 8, channel_id: Some(43) },
    ];
    let first = handle_voice_state_change(&mut session, &members, 99);
    assert_eq!(first, AutoLeaveAction::StopAndLeave);
    assert!(session.queue.is_empty());
    // a second, concurrent event is serialized after the first and finds
    // nothing left to tear down
    let second = handle_voice_state_change(&mut session, &members, 99);
    assert_eq!(second, AutoLeaveAction::Stay);
}

#[test]
fn occupied_channel_keeps_bot_in_place() {
    let mut session = GuildSession::new(1);
    session.apply_join_success(42);
    session.queue.enqueue(entry("a"), false);
    let members = vec![
        VoiceMemberState { user_id: 99, channel_id: Some(42) },
        VoiceMemberState { user_id: 7, channel_id: Some(42) },
    ];
    let action = handle_voice_state_change(&mut session, &members, 99);
    assert_eq!(action, AutoLeaveAction::Stay);
    assert_eq!(session.channel_id, Some(42));
    assert!(!session.queue.is_empty());
}

use vstd::prelude::*;

use crate::session::GuildSession;

verus! {

/// One member's voice state, as delivered with a voice-state-change event.
#[derive(Debug)]
pub struct VoiceMemberState {
    pub user_id: u64,
    pub channel_id: Option<u64>,
}

/// What a voice-state-change event requires of the session.
#[derive(Clone, Copy, Debug, PartialEq, Eq)]
pub enum AutoLeaveAction {
    /// Nothing to do.
    Stay,
    /// The bot was force-disconnected while tracks were queued: tear the
    /// queue down, without a formal leave (there is no connection to leave).
    StopOnly,
    /// The bot is alone in its channel: tear the queue down and issue a
    /// formal leave to the voice transport.
    StopAndLeave,
}

/// Whether any member other than the bot is in the channel.
pub open spec fn spec_others_in_channel(
    members: Seq<VoiceMemberState>,
    channel: u64,
    bot_id: u64,
) -> bool {
    exists|i: int|
        0 <= i < members.len() && members[i].channel_id == Some(channel)
            && members[i].user_id != bot_id
}

/// The monitor's decision, as a function of the session's occupancy, whether
/// its queue is empty, and whether anyone else is in the bot's channel.
pub open spec fn spec_auto_leave_action(
    channel: Option<u64>,
    queue_empty: bool,
    others: bool,
) -> AutoLeaveAction {
    match channel {
        None => if !queue_empty {
            AutoLeaveAction::StopOnly
        } else {
            AutoLeaveAction::Stay
        },
        Some(_) => if !others {
            AutoLeaveAction::StopAndLeave
        } else {
            AutoLeaveAction::Stay
        },
    }
}

/// The occupancy after the decision has been carried out: a teardown leaves
/// the session out of any channel.
pub open spec fn spec_channel_after(channel: Option<u64>, action: AutoLeaveAction) -> Option<
    u64,
> {
    match action {
        AutoLeaveAction::Stay => channel,
        AutoLeaveAction::StopOnly => None,
        AutoLeaveAction::StopAndLeave => None,
    }
}

/// Whether any member other than the bot is in the channel.
pub fn any_other_in_channel(members: &Vec<VoiceMemberState>, channel: u64, bot_id: u64) -> (r:
    bool)
    ensures
        r == spec_others_in_channel(members@, channel, bot_id),
{
    let mut i: usize = 0;
    while i < members.len()
        invariant
            i <= members@.len(),
            forall|k: int|
                0 <= k < i ==> !((#[trigger] members@[k]).channel_id == Some(channel)
                    && members@[k].user_id != bot_id),
        decreases members@.len() - i,
    {
        let in_channel = match members[i].channel_id {
            Some(c) => c == channel,
            None => false,
        };
        if in_channel && members[i].user_id != bot_id {
            return true;
        }
        i = i + 1;
    }
    false
}

/// Consumes one voice-state-change notification, under the guild's session
/// lock: detects "bot was force-disconnected" and "bot is alone" and drives
/// the queue/session teardown. The returned action tells the caller what to
/// perform against the voice transport; a failed formal leave is surfaced by
/// the caller as its own error, and the session stays registered so a
/// retry or a manual leave can recover it.
pub fn handle_voice_state_change(
    session: &mut GuildSession,
    members: &Vec<VoiceMemberState>,
    bot_id: u64,
) -> (r: AutoLeaveAction)
    ensures
        (match old(session).channel_id {
            None => r == spec_auto_leave_action(None, old(session).queue@.len() == 0, false),
            Some(c) => r == spec_auto_leave_action(
                Some(c),
                old(session).queue@.len() == 0,
                spec_others_in_channel(members@, c, bot_id),
            ),
        }),
        final(session).guild_id == old(session).guild_id,
        final(session).channel_id == spec_channel_after(old(session).channel_id, r),
        r == AutoLeaveAction::Stay ==> *final(session) == *old(session),
        r != AutoLeaveAction::Stay ==> final(session).queue@.len() == 0,
{
    match session.channel_id {
        None => {
            if !session.queue.is_empty() {
                let _ = session.queue.stop();
                AutoLeaveAction::StopOnly
            } else {
                AutoLeaveAction::Stay
            }
        },
        Some(c) => {
            if !any_other_in_channel(members, c, bot_id) {
                if !session.queue.is_empty() {
                    let _ = session.queue.stop();
                }
                session.channel_id = None;
                AutoLeaveAction::StopAndLeave
            } else {
                AutoLeaveAction::Stay
            }
        },
    }
}

/// A teardown runs exactly once: once an event has stopped the queue and
/// (when connected) issued the leave, the session is empty and out of any
/// channel, so a second event for the same guild, serialized after the
/// first by the session lock, always decides `Stay`.
pub proof fn lemma_auto_leave_once(
    channel: Option<u64>,
    queue_empty: bool,
    others: bool,
    others2: bool,
)
    ensures
        (spec_auto_leave_action(channel, queue_empty, others) != AutoLeaveAction::Stay)
            ==> spec_auto_leave_action(
            spec_channel_after(channel, spec_auto_leave_action(channel, queue_empty, others)),
            true,
            others2,
        ) == AutoLeaveAction::Stay,
{
}

} // verus!

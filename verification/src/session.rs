use vstd::prelude::*;

use crate::queue::PlaybackQueue;
use std::collections::HashMap;

verus! {

broadcast use vstd::std_specs::hash::group_hash_axioms;

/// A command was issued in a context where no session can exist, or the
/// caller is not sharing a voice channel with the bot.
#[derive(Clone, Copy, Debug, PartialEq, Eq)]
pub enum GetCallError {
    /// The command was not called from a guild.
    NotInGuild,
    /// The voice transport could not be reached.
    SongbirdNotFound,
    /// The author is not in a voice channel with the bot.
    NotInCall,
}

/// One guild's voice activity: the channel currently occupied, if any, and
/// the playback queue. The voice connection itself is owned by the transport
/// collaborator; this records what the core needs to decide with.
#[derive(Debug)]
pub struct GuildSession {
    pub guild_id: u64,
    /// The channel the bot occupies; cleared when the connection is gone.
    pub channel_id: Option<u64>,
    pub queue: PlaybackQueue,
}

impl GuildSession {
    /// A fresh session for a guild, not yet in any channel.
    pub fn new(guild_id: u64) -> (r: GuildSession)
        ensures
            r.guild_id == guild_id,
            r.channel_id is None,
            r.queue@.len() == 0,
    {
        GuildSession { guild_id, channel_id: None, queue: PlaybackQueue::new() }
    }

    /// Records a successful join: the session now occupies the channel.
    pub fn apply_join_success(&mut self, channel_id: u64)
        ensures
            final(self).guild_id == old(self).guild_id,
            final(self).channel_id == Some(channel_id),
            final(self).queue == old(self).queue,
    {
        self.channel_id = Some(channel_id);
    }
}

/// The map from guild identity to its single active session. A caller checks
/// a session out, works on it exclusively, and checks it back in: that is the
/// per-guild serialization point, so no two logical operations interleave
/// their effects on one session. The map itself is guarded separately and
/// held only for the checkout or checkin.
#[derive(Debug)]
pub struct GuildSessionRegistry {
    sessions: HashMap<u64, GuildSession>,
}

impl View for GuildSessionRegistry {
    type V = Map<u64, GuildSession>;

    closed spec fn view(&self) -> Map<u64, GuildSession> {
        self.sessions@
    }
}

impl GuildSessionRegistry {
    /// Every session is filed under its own guild identity.
    pub open spec fn wf(&self) -> bool {
        forall|g: u64| self@.contains_key(g) ==> (#[trigger] self@[g]).guild_id == g
    }

    pub fn new() -> (r: GuildSessionRegistry)
        ensures
            r@ == Map::<u64, GuildSession>::empty(),
            r.wf(),
    {
        let r = GuildSessionRegistry { sessions: HashMap::new() };
        proof {
            assert(r@ =~= Map::<u64, GuildSession>::empty());
        }
        r
    }

    pub fn contains(&self, guild_id: u64) -> (r: bool)
        ensures
            r == self@.contains_key(guild_id),
    {
        self.sessions.contains_key(&guild_id)
    }

    pub fn get(&self, guild_id: u64) -> (r: Option<&GuildSession>)
        ensures
            (match r {
                Some(s) => self@.contains_key(guild_id) && *s == self@[guild_id],
                None => !self@.contains_key(guild_id),
            }),
    {
        self.sessions.get(&guild_id)
    }

    /// Checks the guild's session out for exclusive use; the caller must
    /// check it back in with `put`. No session means the guild has none.
    pub fn take(&mut self, guild_id: u64) -> (r: Option<GuildSession>)
        requires
            old(self).wf(),
        ensures
            final(self).wf(),
            final(self)@ == old(self)@.remove(guild_id),
            (match r {
                Some(s) => old(self)@.contains_key(guild_id) && s == old(self)@[guild_id]
                    && s.guild_id == guild_id,
                None => !old(self)@.contains_key(guild_id),
            }),
    {
        self.sessions.remove(&guild_id)
    }

    /// Checks the guild's session out, creating a fresh one when the guild
    /// has none yet.
    pub fn get_or_create(&mut self, guild_id: u64) -> (r: GuildSession)
        requires
            old(self).wf(),
        ensures
            final(self).wf(),
            final(self)@ == old(self)@.remove(guild_id),
            r.guild_id == guild_id,
            old(self)@.contains_key(guild_id) ==> r == old(self)@[guild_id],
            !old(self)@.contains_key(guild_id) ==> r.channel_id is None && r.queue@.len() == 0,
    {
        match self.sessions.remove(&guild_id) {
            Some(s) => s,
            None => GuildSession::new(guild_id),
        }
    }

    /// Checks a session back in under its own guild identity.
    pub fn put(&mut self, session: GuildSession)
        requires
            old(self).wf(),
        ensures
            final(self).wf(),
            final(self)@ == old(self)@.insert(session.guild_id, session),
    {
        let g = session.guild_id;
        let _ = self.sessions.insert(g, session);
    }

    /// Destroys the guild's session, if any: the bot has left that guild's
    /// voice channel.
    pub fn remove(&mut self, guild_id: u64) -> (r: bool)
        requires
            old(self).wf(),
        ensures
            final(self).wf(),
            final(self)@ == old(self)@.remove(guild_id),
            r == old(self)@.contains_key(guild_id),
    {
        match self.sessions.remove(&guild_id) {
            Some(_) => true,
            None => false,
        }
    }
}

/// The registry keeps at most one session per guild: checking a session in
/// and asking for that guild again yields that very session, and a second
/// checkout of the same guild finds none until the first is returned.
pub proof fn lemma_one_session_per_guild(r: GuildSessionRegistry, s: GuildSession)
    requires
        r.wf(),
    ensures
        r@.insert(s.guild_id, s)[s.guild_id] == s,
        !r@.remove(s.guild_id).contains_key(s.guild_id),
{
}

} // verus!

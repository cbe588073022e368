use vstd::prelude::*;

verus! {

/// Why a join request was not fulfilled.
#[derive(Debug, PartialEq, Eq)]
pub enum JoinVoiceError {
    /// The underlying join attempt failed; the transport's own message is
    /// carried along, not swallowed.
    Join(String),
    /// The bot already holds a voice connection in this guild, in a
    /// different channel than requested.
    Occupied,
}

/// What to do with a join request, given the channel the bot already
/// occupies in the guild, if any.
#[derive(Clone, Copy, Debug, PartialEq, Eq)]
pub enum JoinDecision {
    /// The existing connection already is in the requested channel: hand it
    /// back unchanged.
    Reuse,
    /// No existing connection: attempt to join the requested channel.
    Join,
    /// The existing connection is in a different channel: reject the
    /// request, with no side effects.
    Occupied,
}

/// The entire arbitration policy, as a three-way branch.
pub open spec fn spec_arbitrate(existing: Option<u64>, requested: u64) -> JoinDecision {
    match existing {
        None => JoinDecision::Join,
        Some(c) => if c == requested {
            JoinDecision::Reuse
        } else {
            JoinDecision::Occupied
        },
    }
}

/// The channel the bot occupies once the decision has been carried out and,
/// for `Join`, the transport call succeeded.
pub open spec fn spec_after_join(existing: Option<u64>, requested: u64) -> Option<u64> {
    match spec_arbitrate(existing, requested) {
        JoinDecision::Join => Some(requested),
        JoinDecision::Reuse => existing,
        JoinDecision::Occupied => existing,
    }
}

/// Decides whether to reuse, join, or reject a voice-channel connection
/// request. Evaluated while the guild's session is held exclusively, so two
/// simultaneous requests for one guild are decided one after the other.
pub fn arbitrate(existing: Option<u64>, requested: u64) -> (r: JoinDecision)
    ensures
        r == spec_arbitrate(existing, requested),
{
    match existing {
        None => JoinDecision::Join,
        Some(c) => {
            if c == requested {
                JoinDecision::Reuse
            } else {
                JoinDecision::Occupied
            }
        },
    }
}

/// The state after a whole sequence of join requests, decided one after the
/// other under the guild's lock.
pub open spec fn spec_run_requests(existing: Option<u64>, reqs: Seq<u64>) -> Option<u64>
    decreases reqs.len(),
{
    if reqs.len() == 0 {
        existing
    } else {
        spec_run_requests(
            spec_after_join(existing, reqs[0]),
            reqs.subrange(1, reqs.len() as int),
        )
    }
}

/// How many of the requests in the sequence are decided as joins.
pub open spec fn spec_join_count(existing: Option<u64>, reqs: Seq<u64>) -> nat
    decreases reqs.len(),
{
    if reqs.len() == 0 {
        0
    } else {
        (if spec_arbitrate(existing, reqs[0]) == JoinDecision::Join {
            1nat
        } else {
            0nat
        }) + spec_join_count(
            spec_after_join(existing, reqs[0]),
            reqs.subrange(1, reqs.len() as int),
        )
    }
}

/// Once the bot holds a connection, no sequence of further requests is ever
/// decided as a join, and the connection is never lost to arbitration.
pub proof fn lemma_occupied_state_never_joins(c: u64, reqs: Seq<u64>)
    ensures
        spec_join_count(Some(c), reqs) == 0,
        spec_run_requests(Some(c), reqs) is Some,
    decreases reqs.len(),
{
    if reqs.len() > 0 {
        let after = spec_after_join(Some(c), reqs[0]);
        lemma_occupied_state_never_joins(after->0, reqs.subrange(1, reqs.len() as int));
    }
}

/// For any sequence of join requests to one guild, serialized by its lock,
/// at most one is decided as a join: the first one decided from the
/// unconnected state, after which every request meets an existing
/// connection.
pub proof fn lemma_at_most_one_join(reqs: Seq<u64>)
    ensures
        spec_join_count(None, reqs) <= 1,
{
    if reqs.len() > 0 {
        lemma_occupied_state_never_joins(reqs[0], reqs.subrange(1, reqs.len() as int));
    }
}

/// A join is only ever decided when no connection exists, and once one
/// exists, a request for a different channel is always rejected as occupied,
/// whatever order the serialized requests arrive in. In particular, after
/// one request joined channel `c1`, a second request for a different channel
/// `c2` observes `Occupied` and leaves the state unchanged.
pub proof fn lemma_join_arbitration_exclusive(c1: u64, c2: u64)
    ensures
        spec_arbitrate(None, c1) == JoinDecision::Join,
        forall|c: u64, req: u64| spec_arbitrate(Some(c), req) != JoinDecision::Join,
        c2 != c1 ==> spec_arbitrate(spec_after_join(None, c1), c2) == JoinDecision::Occupied,
        c2 != c1 ==> spec_after_join(spec_after_join(None, c1), c2) == Some(c1),
        c2 == c1 ==> spec_arbitrate(spec_after_join(None, c1), c2) == JoinDecision::Reuse,
{
}

} // verus!

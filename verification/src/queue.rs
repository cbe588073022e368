use vstd::prelude::*;

use crate::metadata::TrackMetadata;

verus! {

/// The queue has no current entry, so the operation has nothing to act on.
#[derive(Clone, Copy, Debug, PartialEq, Eq)]
pub enum QueueError {
    QueueEmpty,
}

/// A playable source plus its metadata and a loop flag.
#[derive(Debug)]
pub struct QueueEntry {
    /// The raw source string handed to the player.
    pub source: String,
    pub metadata: TrackMetadata,
    pub looping: bool,
}

/// Ordered queue of resolved tracks. The current entry, if any, is always the
/// entry at index zero.
#[derive(Debug)]
pub struct PlaybackQueue {
    entries: Vec<QueueEntry>,
}

impl View for PlaybackQueue {
    type V = Seq<QueueEntry>;

    closed spec fn view(&self) -> Seq<QueueEntry> {
        self.entries@
    }
}

/// What `enqueue` asks of the caller: the metadata now attached, and whether
/// the formerly current track must be signalled to stop.
#[derive(Debug)]
pub struct EnqueueOutcome<'a> {
    pub metadata: &'a TrackMetadata,
    pub stop_current: bool,
}

impl PlaybackQueue {
    pub fn new() -> (r: PlaybackQueue)
        ensures
            r@.len() == 0,
    {
        PlaybackQueue { entries: Vec::new() }
    }

    pub fn is_empty(&self) -> (r: bool)
        ensures
            r == (self@.len() == 0),
    {
        self.entries.len() == 0
    }

    pub fn len(&self) -> (r: usize)
        ensures
            r == self@.len(),
    {
        self.entries.len()
    }

    /// The entry at index zero: the one actively streaming.
    pub fn current(&self) -> (r: Option<&QueueEntry>)
        ensures
            (match r {
                Some(e) => self@.len() > 0 && *e == self@[0],
                None => self@.len() == 0,
            }),
    {
        if self.entries.len() == 0 {
            None
        } else {
            Some(&self.entries[0])
        }
    }

    /// All entries in play order.
    pub fn list(&self) -> (r: &Vec<QueueEntry>)
        ensures
            r@ == self@,
    {
        &self.entries
    }

    /// Appends the entry; with `insert_at_front` and a current entry present,
    /// the new entry is placed immediately after the current one, and the
    /// caller is told to stop the current track so playback advances to it.
    pub fn enqueue(&mut self, entry: QueueEntry, insert_at_front: bool) -> (r: EnqueueOutcome<
        '_,
    >)
        ensures
            (if insert_at_front && old(self)@.len() >= 1 {
                final(self)@ == seq![old(self)@[0], entry] + old(self)@.subrange(
                    1,
                    old(self)@.len() as int,
                ) && r.stop_current
            } else {
                final(self)@ == old(self)@.push(entry) && !r.stop_current
            }),
            *r.metadata == entry.metadata,
            final(self)@.len() == old(self)@.len() + 1,
    {
        if insert_at_front && self.entries.len() >= 1 {
            let ghost pre = self.entries@;
            self.entries.insert(1, entry);
            proof {
                assert(self.entries@ =~= seq![pre[0], self.entries@[1]] + pre.subrange(
                    1,
                    pre.len() as int,
                ));
            }
            EnqueueOutcome { metadata: &self.entries[1].metadata, stop_current: true }
        } else {
            self.entries.push(entry);
            let last = self.entries.len() - 1;
            EnqueueOutcome { metadata: &self.entries[last].metadata, stop_current: false }
        }
    }

    /// After an enqueue at the front of a non-empty queue, the new entry
    /// stands at index one, the formerly current entry still stands at index
    /// zero (it keeps playing until the stop it was signalled takes effect),
    /// and everything else has moved back by one.
    pub proof fn lemma_enqueue_front_position(pre: Seq<QueueEntry>, entry: QueueEntry)
        requires
            pre.len() >= 1,
        ensures
            (seq![pre[0], entry] + pre.subrange(1, pre.len() as int))[0] == pre[0],
            (seq![pre[0], entry] + pre.subrange(1, pre.len() as int))[1] == entry,
            (seq![pre[0], entry] + pre.subrange(1, pre.len() as int)).len() == pre.len() + 1,
            forall|i: int|
                1 <= i < pre.len() ==> (seq![pre[0], entry] + pre.subrange(
                    1,
                    pre.len() as int,
                ))[i + 1] == #[trigger] pre[i],
    {
    }

    /// Removes the current entry, advancing the queue to the next one.
    /// Fails on an empty queue, which it leaves untouched.
    pub fn skip(&mut self) -> (r: Result<QueueEntry, QueueError>)
        ensures
            (match r {
                Ok(removed) => old(self)@.len() > 0 && removed == old(self)@[0]
                    && final(self)@ == old(self)@.subrange(1, old(self)@.len() as int),
                Err(e) => e == QueueError::QueueEmpty && old(self)@.len() == 0
                    && final(self)@ == old(self)@,
            }),
    {
        if self.entries.len() == 0 {
            Err(QueueError::QueueEmpty)
        } else {
            Ok(self.entries.remove(0))
        }
    }

    /// Flips the loop flag on the current entry and reports the new state.
    /// Fails on an empty queue, which it leaves untouched.
    pub fn toggle_loop(&mut self) -> (r: Result<bool, QueueError>)
        ensures
            (match r {
                Ok(now_looping) => old(self)@.len() > 0 && now_looping == !old(self)@[0].looping
                    && final(self)@.len() == old(self)@.len()
                    && final(self)@[0].source == old(self)@[0].source
                    && final(self)@[0].metadata == old(self)@[0].metadata
                    && final(self)@[0].looping == now_looping
                    && (forall|i: int|
                        1 <= i < old(self)@.len() ==> final(self)@[i] == old(self)@[i]),
                Err(e) => e == QueueError::QueueEmpty && old(self)@.len() == 0
                    && final(self)@ == old(self)@,
            }),
    {
        if self.entries.len() == 0 {
            Err(QueueError::QueueEmpty)
        } else {
            let mut head = self.entries.remove(0);
            let now_looping = !head.looping;
            head.looping = now_looping;
            self.entries.insert(0, head);
            Ok(now_looping)
        }
    }

    /// Clears the whole queue. Calling it on an already empty queue is a
    /// usage error, and the queue is left untouched.
    pub fn stop(&mut self) -> (r: Result<(), QueueError>)
        ensures
            (match r {
                Ok(_) => old(self)@.len() > 0 && final(self)@.len() == 0,
                Err(e) => e == QueueError::QueueEmpty && old(self)@.len() == 0
                    && final(self)@ == old(self)@,
            }),
    {
        if self.entries.len() == 0 {
            Err(QueueError::QueueEmpty)
        } else {
            self.entries.clear();
            Ok(())
        }
    }

    /// Advances the queue when the playing track completes: a looping current
    /// entry is kept at the front to replay, any other is removed. On an
    /// empty queue there is nothing to advance.
    pub fn on_track_end(&mut self)
        ensures
            old(self)@.len() == 0 ==> final(self)@ == old(self)@,
            old(self)@.len() > 0 && old(self)@[0].looping ==> final(self)@ == old(self)@,
            old(self)@.len() > 0 && !old(self)@[0].looping
                ==> final(self)@ == old(self)@.subrange(1, old(self)@.len() as int),
    {
        if self.entries.len() > 0 {
            if !self.entries[0].looping {
                let _ = self.entries.remove(0);
            }
        }
    }
}

} // verus!

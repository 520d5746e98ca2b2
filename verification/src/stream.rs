//! The long-poll update stream: a pull-driven state machine that
//! buffers decoded updates, advances the acknowledgment offset, and
//! recovers from a failed cycle without losing its position.
//!
//! The caller owns the actual fetch operation; the state machine
//! decides, on every pull, whether to end, hand out a buffered item,
//! re-issue the fetch at the preserved offset, or keep awaiting, and
//! it folds each fetch outcome back into the state. The offset only
//! ever moves forward, and a failed fetch leaves it untouched, so the
//! same window is re-requested on the next cycle.

use crate::responses::update::Update;
use std::collections::VecDeque;
use vstd::prelude::*;

verus! {

/// The state of one update stream: the buffered items not yet handed
/// out, the cancellation flag, the last acknowledged offset (`None`
/// until the first acknowledgment when no starting offset was given),
/// and whether the previous cycle ended in error.
pub struct UpdatesStream {
    pub buffer: VecDeque<Update>,
    pub is_canceled: bool,
    pub last_id: Option<i64>,
    pub has_error: bool,
}

/// What one pull decides: the sequence has ended, an item is handed
/// out, the fetch must be re-issued at the carried offset before
/// awaiting, or the in-flight fetch is simply awaited.
#[derive(Debug, PartialEq)]
pub enum PollAction {
    Finished,
    Item(Update),
    RestartFetch(Option<i64>),
    AwaitFetch,
}

/// The id an absent offset acknowledges from: one below zero, so that
/// the first update always advances it.
pub open spec fn offset_seed(o: Option<i64>) -> i64 {
    match o {
        Some(x) => x,
        None => -1i64,
    }
}

/// The ids carried by a batch of updates, in order.
pub open spec fn batch_ids(updates: Seq<Update>) -> Seq<i64> {
    updates.map_values(|u: Update| u.id)
}

/// The acknowledgment offset after a successful batch: unchanged by
/// an empty batch, else one past the larger of the batch's final id
/// and the current seed.
pub open spec fn advanced_offset(o: Option<i64>, ids: Seq<i64>) -> Option<i64> {
    if ids.len() == 0 {
        o
    } else if ids.last() > offset_seed(o) {
        Some((ids.last() + 1) as i64)
    } else {
        Some((offset_seed(o) + 1) as i64)
    }
}

impl UpdatesStream {
    /// A fresh stream that will first fetch at the given offset.
    pub fn new(offset: Option<i64>) -> (s: UpdatesStream)
        ensures
            s.buffer@.len() == 0,
            !s.is_canceled,
            s.last_id == offset,
            !s.has_error,
    {
        UpdatesStream {
            buffer: VecDeque::new(),
            is_canceled: false,
            last_id: offset,
            has_error: false,
        }
    }

    /// Decides one pull, in this order: a canceled stream has ended; a
    /// non-empty buffer hands out its front item; a pending error
    /// clears the flag and re-issues the fetch at the preserved
    /// offset — the very offset the failed cycle used; otherwise the
    /// in-flight fetch is awaited. Nothing else of the state changes.
    pub fn next_action(&mut self) -> (a: PollAction)
        ensures
            final(self).is_canceled == old(self).is_canceled,
            final(self).last_id == old(self).last_id,
            old(self).is_canceled ==> a == PollAction::Finished
                && final(self).buffer@ == old(self).buffer@
                && final(self).has_error == old(self).has_error,
            !old(self).is_canceled && old(self).buffer@.len() > 0 ==> a == PollAction::Item(old(self).buffer@[0])
                && final(self).buffer@ == old(self).buffer@.subrange(1, old(self).buffer@.len() as int)
                && final(self).has_error == old(self).has_error,
            !old(self).is_canceled && old(self).buffer@.len() == 0 && old(self).has_error ==> a == PollAction::RestartFetch(old(self).last_id)
                && final(self).buffer@ == old(self).buffer@
                && !final(self).has_error,
            !old(self).is_canceled && old(self).buffer@.len() == 0 && !old(self).has_error ==> a == PollAction::AwaitFetch
                && final(self).buffer@ == old(self).buffer@
                && !final(self).has_error,
    {
        if self.is_canceled {
            return PollAction::Finished;
        }
        if let Some(update) = self.buffer.pop_front() {
            return PollAction::Item(update);
        }
        if self.has_error {
            self.has_error = false;
            return PollAction::RestartFetch(self.last_id);
        }
        PollAction::AwaitFetch
    }

    /// Folds a successful fetch into the state: the updates join the
    /// back of the buffer in the order received, and the offset
    /// advances to one past the larger of the batch's final id and
    /// the current seed. Returns the offset the next fetch must use.
    pub fn on_fetch_success(&mut self, updates: Vec<Update>) -> (next: Option<i64>)
        requires
            updates@.len() > 0 ==> offset_seed(old(self).last_id) < i64::MAX,
            forall|i: int| 0 <= i < updates@.len() ==> (#[trigger] updates@[i]).id < i64::MAX,
        ensures
            final(self).buffer@ == old(self).buffer@ + updates@,
            final(self).last_id == advanced_offset(old(self).last_id, batch_ids(updates@)),
            final(self).is_canceled == old(self).is_canceled,
            final(self).has_error == old(self).has_error,
            next == final(self).last_id,
    {
        let ghost incoming = updates@;
        let n = updates.len();
        if n > 0 {
            let seed: i64 = match self.last_id {
                Some(x) => x,
                None => -1,
            };
            let last_batch_id: i64 = updates[n - 1].id;
            assert(last_batch_id == batch_ids(incoming).last());
            let next_id: i64 = if last_batch_id > seed {
                last_batch_id + 1
            } else {
                seed + 1
            };
            self.last_id = Some(next_id);
        }
        let mut rest = updates;
        let ghost buffered = self.buffer@;
        let mut i: usize = 0;
        while rest.len() > 0
            invariant
                i + rest@.len() == incoming.len(),
                incoming.len() <= usize::MAX,
                rest@ == incoming.subrange(i as int, incoming.len() as int),
                self.buffer@ == buffered + incoming.subrange(0, i as int),
                self.is_canceled == old(self).is_canceled,
                self.has_error == old(self).has_error,
                self.last_id == advanced_offset(old(self).last_id, batch_ids(incoming)),
            decreases rest@.len(),
        {
            let u = rest.remove(0);
            self.buffer.push_back(u);
            i = i + 1;
            proof {
                assert(self.buffer@ =~= buffered + incoming.subrange(0, i as int));
            }
        }
        proof {
            assert(self.buffer@ =~= buffered + incoming);
        }
        self.last_id
    }

    /// Folds a failed fetch into the state: only the error flag is
    /// raised. The offset does not advance, so the next cycle
    /// re-requests the same window, and the buffer keeps what it had.
    pub fn on_fetch_error(&mut self)
        ensures
            final(self).has_error,
            final(self).last_id == old(self).last_id,
            final(self).buffer@ == old(self).buffer@,
            final(self).is_canceled == old(self).is_canceled,
    {
        self.has_error = true;
    }

    /// Marks the stream canceled: every later pull is an inert end of
    /// sequence, with no further fetches.
    pub fn cancel(&mut self)
        ensures
            final(self).is_canceled,
            final(self).last_id == old(self).last_id,
            final(self).buffer@ == old(self).buffer@,
            final(self).has_error == old(self).has_error,
    {
        self.is_canceled = true;
    }
}

/// Law: a successful non-empty batch whose final id `m` is the
/// largest the stream has seen (at least the current seed) moves the
/// offset to exactly `m + 1` — the next fetch acknowledges everything
/// up to `m`.
pub proof fn lemma_next_offset_after_success(o: Option<i64>, ids: Seq<i64>, m: i64)
    requires
        ids.len() > 0,
        ids.last() == m,
        offset_seed(o) <= m,
        m < i64::MAX,
    ensures
        advanced_offset(o, ids) == Some((m + 1) as i64),
{
}

/// Law: over successive successful fetches whose batch maxima grow,
/// each following fetch goes out at the previous maximum plus one —
/// first at `m1 + 1`, then at `m2 + 1`.
pub proof fn lemma_offsets_follow_batch_maxima(
    o: Option<i64>,
    ids1: Seq<i64>,
    ids2: Seq<i64>,
    m1: i64,
    m2: i64,
)
    requires
        ids1.len() > 0,
        ids2.len() > 0,
        ids1.last() == m1,
        ids2.last() == m2,
        offset_seed(o) <= m1,
        m1 < m2,
        m2 < i64::MAX,
    ensures
        advanced_offset(o, ids1) == Some((m1 + 1) as i64),
        advanced_offset(advanced_offset(o, ids1), ids2) == Some((m2 + 1) as i64),
{
}

/// Law: the acknowledgment offset only ever moves forward — a
/// successful non-empty batch leaves the seed strictly larger than it
/// was.
pub proof fn lemma_offset_monotonic(o: Option<i64>, ids: Seq<i64>)
    requires
        ids.len() > 0,
        ids.last() < i64::MAX,
        offset_seed(o) < i64::MAX,
    ensures
        offset_seed(advanced_offset(o, ids)) > offset_seed(o),
{
}

} // verus!

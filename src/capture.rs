use vstd::prelude::*;

verus! {

/// `n` counted up by one, staying at the largest value once there.
pub open spec fn bumped(n: u64) -> u64 {
    if n < u64::MAX {
        (n + 1) as u64
    } else {
        n
    }
}

/// The counters after one block was offered: dropped when `dropped`, else
/// delivered.
pub open spec fn recorded(s: CaptureStats, dropped: bool) -> CaptureStats {
    if dropped {
        CaptureStats { dropped: bumped(s.dropped), ..s }
    } else {
        CaptureStats { delivered: bumped(s.delivered), ..s }
    }
}

/// The counters after blocks were offered in turn, `outcomes[i]` telling
/// whether the `i`-th was handed back.
pub open spec fn recorded_all(s: CaptureStats, outcomes: Seq<bool>) -> CaptureStats
    decreases outcomes.len(),
{
    if outcomes.len() == 0 {
        s
    } else {
        recorded(recorded_all(s, outcomes.drop_last()), outcomes.last())
    }
}

/// Counters kept by the real-time callback about the blocks it offers to the
/// bounded frame queue. The push never blocks: when the queue is full the
/// newest block is handed back and dropped, and the queue keeps the older ones.
pub struct CaptureStats {
    /// Blocks that the frame queue took.
    pub delivered: u64,
    /// Blocks dropped because the frame queue was full.
    pub dropped: u64,
}

impl CaptureStats {
    pub fn new() -> (r: Self)
        ensures
            r.delivered == 0,
            r.dropped == 0,
    {
        CaptureStats { delivered: 0, dropped: 0 }
    }

    /// Records what the non-blocking push of one block handed back: the block
    /// itself when the queue was full, nothing when it took the block. Returns
    /// whether the block was dropped; each drop is counted once.
    pub fn record<T>(&mut self, handed_back: &Option<T>) -> (dropped: bool)
        ensures
            dropped == handed_back is Some,
            *final(self) == recorded(*old(self), dropped),
            final(self).dropped == (if dropped { bumped(old(self).dropped) } else { old(self).dropped }),
            final(self).delivered == (if dropped { old(self).delivered } else { bumped(old(self).delivered) }),
    {
        match handed_back {
            Some(_) => {
                if self.dropped < u64::MAX {
                    self.dropped = self.dropped + 1;
                }
                true
            },
            None => {
                if self.delivered < u64::MAX {
                    self.delivered = self.delivered + 1;
                }
                false
            },
        }
    }
}

/// `n` blocks that the frame queue took.
pub open spec fn all_taken(n: nat) -> Seq<bool> {
    Seq::new(n, |i: int| false)
}

proof fn lemma_taken_blocks_deliver(n: nat)
    requires
        n < u64::MAX,
    ensures
        recorded_all(CaptureStats { delivered: 0, dropped: 0 }, all_taken(n)) == (CaptureStats {
            delivered: n as u64,
            dropped: 0,
        }),
    decreases n,
{
    if n > 0 {
        assert(all_taken(n).drop_last() =~= all_taken((n - 1) as nat));
        lemma_taken_blocks_deliver((n - 1) as nat);
    }
}

/// Offering blocks to a frame queue of `capacity` slots that nothing drains,
/// the queue takes the first `capacity` and hands back the next: counted from
/// zero, exactly one drop is recorded, raised by that last block, none by the
/// earlier ones, and every earlier block is counted as delivered.
pub proof fn lemma_overflow_counts_one_drop(capacity: nat)
    requires
        capacity < u64::MAX,
    ensures
        recorded_all(CaptureStats { delivered: 0, dropped: 0 }, all_taken(capacity).push(true)) == (CaptureStats {
            delivered: capacity as u64,
            dropped: 1,
        }),
        forall|k: nat|
            k <= capacity ==> (#[trigger] recorded_all(
                CaptureStats { delivered: 0, dropped: 0 },
                all_taken(capacity).push(true).take(k as int),
            )).dropped == 0,
{
    let outcomes = all_taken(capacity).push(true);
    assert(outcomes.drop_last() =~= all_taken(capacity));
    lemma_taken_blocks_deliver(capacity);
    assert forall|k: nat| k <= capacity implies (#[trigger] recorded_all(
        CaptureStats { delivered: 0, dropped: 0 },
        outcomes.take(k as int),
    )).dropped == 0 by {
        assert(outcomes.take(k as int) =~= all_taken(k));
        lemma_taken_blocks_deliver(k);
    }
}

} // verus!

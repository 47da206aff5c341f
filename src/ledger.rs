//! Append-only records kept beside the envelope flow: speculative work
//! awaiting confirmation, and governance decisions kept for replay.
use vstd::prelude::*;

use crate::envelope::IntentVectorV2;
use crate::governance::GovernanceDecision;
use crate::ENTROPY_SEED_BYTES;

verus! {

/// What a replay needs to reproduce one governance decision.
#[derive(Debug, Clone, Copy, PartialEq, Eq)]
pub struct ReplayRecord {
    pub sync_id: u64,
    pub entropy_seed: [u8; ENTROPY_SEED_BYTES],
    pub decision: GovernanceDecision,
}

/// Speculative work under a sync id, and whether it has been confirmed.
#[derive(Debug, Clone, Copy, PartialEq, Eq, Structural)]
pub struct ShadowLedgerEntry {
    pub sync_id: u64,
    pub speculative_hash: u64,
    pub committed: bool,
}

/// An entry for `sync_id` that is not yet committed.
pub open spec fn pending_for(e: ShadowLedgerEntry, sync_id: u64) -> bool {
    e.sync_id == sync_id && !e.committed
}

/// `i` is the first entry pending for `sync_id`.
pub open spec fn first_pending(entries: Seq<ShadowLedgerEntry>, sync_id: u64, i: int) -> bool {
    &&& 0 <= i < entries.len()
    &&& pending_for(entries[i], sync_id)
    &&& forall|j: int| 0 <= j < i ==> !pending_for(#[trigger] entries[j], sync_id)
}

/// Number of committed entries.
pub open spec fn count_committed(entries: Seq<ShadowLedgerEntry>) -> nat
    decreases entries.len(),
{
    if entries.len() == 0 {
        0
    } else {
        count_committed(entries.drop_last()) + if entries.last().committed {
            1nat
        } else {
            0nat
        }
    }
}

/// The log of speculative work.
#[derive(Debug)]
pub struct GhostWorkerSafetyLedger {
    entries: Vec<ShadowLedgerEntry>,
}

impl View for GhostWorkerSafetyLedger {
    type V = Seq<ShadowLedgerEntry>;

    closed spec fn view(&self) -> Seq<ShadowLedgerEntry> {
        self.entries@
    }
}

impl GhostWorkerSafetyLedger {
    pub fn new() -> (r: Self)
        ensures
            r@ == Seq::<ShadowLedgerEntry>::empty(),
    {
        GhostWorkerSafetyLedger { entries: Vec::new() }
    }

    /// Appends an uncommitted entry.
    pub fn push_speculative(&mut self, sync_id: u64, speculative_hash: u64)
        ensures
            final(self)@ == old(self)@.push(
                ShadowLedgerEntry { sync_id, speculative_hash, committed: false },
            ),
    {
        self.entries.push(ShadowLedgerEntry { sync_id, speculative_hash, committed: false });
    }

    /// Commits the first uncommitted entry for `sync_id`; `false` when there
    /// is none, and the ledger is then unchanged.
    pub fn confirm_commit(&mut self, sync_id: u64) -> (r: bool)
        ensures
            r <==> exists|i: int| first_pending(old(self)@, sync_id, i),
            forall|i: int|
                first_pending(old(self)@, sync_id, i) ==> final(self)@ == old(self)@.update(
                    i,
                    ShadowLedgerEntry { committed: true, ..old(self)@[i] },
                ),
            !r ==> final(self)@ == old(self)@,
    {
        let mut i: usize = 0;
        while i < self.entries.len()
            invariant
                self.entries@ == old(self).entries@,
                i <= self.entries@.len(),
                forall|j: int| 0 <= j < i ==> !pending_for(#[trigger] self.entries@[j], sync_id),
            decreases self.entries@.len() - i,
        {
            let entry = self.entries[i];
            if entry.sync_id == sync_id && !entry.committed {
                let ghost before = self.entries@;
                self.entries.set(i, ShadowLedgerEntry { committed: true, ..entry });
                assert forall|k: int| first_pending(before, sync_id, k) implies k == i by {
                    if k < i {
                    } else if k > i {
                        assert(!pending_for(before[i as int], sync_id));
                    }
                }
                assert(first_pending(before, sync_id, i as int));
                return true;
            }
            i += 1;
        }
        assert forall|k: int| !first_pending(old(self)@, sync_id, k) by {
            if 0 <= k < old(self)@.len() {
                assert(!pending_for(self.entries@[k], sync_id));
            }
        }
        false
    }

    /// Number of committed entries.
    pub fn committed_count(&self) -> (r: usize)
        ensures
            r == count_committed(self@),
    {
        let mut count: usize = 0;
        let mut i: usize = 0;
        while i < self.entries.len()
            invariant
                i <= self.entries@.len(),
                count == count_committed(self.entries@.subrange(0, i as int)),
                count <= i,
            decreases self.entries@.len() - i,
        {
            let ghost prefix = self.entries@.subrange(0, i as int);
            assert(self.entries@.subrange(0, i + 1).drop_last() =~= prefix);
            if self.entries[i].committed {
                count += 1;
            }
            i += 1;
        }
        assert(self.entries@.subrange(0, i as int) =~= self.entries@);
        count
    }
}

/// The log of governance decisions, in insertion order.
#[derive(Debug)]
pub struct DeterministicReplayLog {
    records: Vec<ReplayRecord>,
}

impl View for DeterministicReplayLog {
    type V = Seq<ReplayRecord>;

    closed spec fn view(&self) -> Seq<ReplayRecord> {
        self.records@
    }
}

impl DeterministicReplayLog {
    pub fn new() -> (r: Self)
        ensures
            r@ == Seq::<ReplayRecord>::empty(),
    {
        DeterministicReplayLog { records: Vec::new() }
    }

    /// Appends the envelope's sync id and entropy seed with `decision`.
    pub fn push(&mut self, vector: &IntentVectorV2, decision: GovernanceDecision)
        ensures
            final(self)@ == old(self)@.push(
                ReplayRecord {
                    sync_id: vector@.sync_id,
                    entropy_seed: vector@.metadata.entropy_seed,
                    decision,
                },
            ),
    {
        self.records.push(
            ReplayRecord {
                sync_id: vector.sync_id(),
                entropy_seed: vector.metadata().entropy_seed,
                decision,
            },
        );
    }

    /// Every record, oldest first.
    pub fn records(&self) -> (r: &[ReplayRecord])
        ensures
            r@ == self@,
    {
        self.records.as_slice()
    }
}

} // verus!

use std::time::{SystemTime, UNIX_EPOCH};

use tachyon_core::builder::IntentVectorBuilder;
use tachyon_core::clock::LamportClock;
use tachyon_core::envelope::{CognitiveState, IntentVectorV2, Provenance, TachyonMetadata};
use tachyon_core::governance::{governance_decision, GovernanceDecision, GovernanceRejection};
use tachyon_core::identity::identity_annihilation;
use tachyon_core::ledger::{DeterministicReplayLog, GhostWorkerSafetyLedger};
use tachyon_core::pool::HugePageEnvelopePool;
use tachyon_core::{ENTROPY_SEED_BYTES, INTENT_DIMENSIONS};

fn bits(v: f32) -> u32 {
    v.to_bits()
}

fn wall_clock_ms() -> u64 {
    SystemTime::now().duration_since(UNIX_EPOCH).expect("clock after epoch").as_millis() as u64
}

fn next_stamp(clock: &LamportClock) -> u64 {
    loop {
        if let Some(stamp) = clock.try_advance(wall_clock_ms()) {
            return stamp;
        }
    }
}

fn sample_vector() -> [u32; INTENT_DIMENSIONS] {
    let mut vector = [0u32; INTENT_DIMENSIONS];
    vector[0] = bits(0.12);
    vector[1] = bits(-0.45);
    vector
}

fn sample_state() -> CognitiveState {
    CognitiveState {
        explore_resolve: bits(0.7),
        abstract_concrete: bits(-0.3),
        subjective_objective: bits(0.2),
        divergent_convergent: bits(0.8),
        passive_active: bits(0.9),
        emotional_valence: bits(0.85),
        energy_level: bits(0.92),
        turbulence: bits(0.15),
    }
}

fn sample_metadata() -> TachyonMetadata {
    TachyonMetadata {
        entropy_seed: [7u8; ENTROPY_SEED_BYTES],
        payload_ptr: 0x7ffd1234,
        rkey: 0xabcd,
        ghost_flag: false,
        _padding: [0; 3],
    }
}

fn sample_provenance() -> Provenance {
    Provenance {
        sender_hash: identity_annihilation("agent_alpha_v3"),
        integrity_hash: 0xDEADBEEF,
        audit_clearance: true,
        _padding: [0; 7],
    }
}

fn zero_state() -> CognitiveState {
    let z = bits(0.0);
    CognitiveState {
        explore_resolve: z,
        abstract_concrete: z,
        subjective_objective: z,
        divergent_convergent: z,
        passive_active: z,
        emotional_valence: z,
        energy_level: z,
        turbulence: z,
    }
}

fn build_with(
    vector: [u32; INTENT_DIMENSIONS],
    state: CognitiveState,
    provenance: Provenance,
    sync_id: u64,
) -> Result<IntentVectorV2, GovernanceRejection> {
    IntentVectorBuilder::new(vector)
        .with_cognitive_state(state)
        .with_metadata(sample_metadata())
        .with_provenance(provenance)
        .build(sync_id)
}

#[test]
fn schema_size_is_close_to_tachyon_target() {
    assert!(IntentVectorV2::size_in_bytes() >= 4_192);
    assert!(IntentVectorV2::size_in_bytes() <= 4_256);
}

#[test]
fn record_layout_size_matches_memory_size() {
    assert_eq!(std::mem::size_of::<IntentVectorV2>(), IntentVectorV2::size_in_bytes());
    assert_eq!(IntentVectorV2::size_in_bytes(), 4216);
}

#[test]
fn lamport_timestamp_monotonicity() {
    let clock = LamportClock::new();
    let a = next_stamp(&clock);
    let b = next_stamp(&clock);
    assert!(b > a);
}

#[test]
fn lamport_stamp_runs_ahead_of_wall_clock() {
    let clock = LamportClock::new();
    let stamp = clock.try_advance(1_000).expect("no other thread uses this clock");
    assert_eq!(stamp, 1_001);
    let next = clock.try_advance(500).expect("no other thread uses this clock");
    assert_eq!(next, 1_002);
    let saturated = LamportClock::new();
    assert_eq!(saturated.try_advance(u64::MAX), Some(u64::MAX));
}

#[test]
fn envelope_freezes_after_build() {
    let clock = LamportClock::new();
    let envelope = build_with(sample_vector(), sample_state(), sample_provenance(), next_stamp(&clock))
        .expect("should pass governance");

    assert!(envelope.frozen());
    assert_eq!(envelope.version(), 1);
}

#[test]
fn governance_rejects_high_turbulence() {
    let mut state = sample_state();
    state.turbulence = bits(0.95);

    let result = build_with(sample_vector(), state, sample_provenance(), 5);

    assert_eq!(result, Err(GovernanceRejection::InspiraRejected));
}

#[test]
fn governance_rejects_missing_audit_clearance() {
    let mut provenance = sample_provenance();
    provenance.audit_clearance = false;

    let result = build_with(sample_vector(), sample_state(), provenance, 5);

    assert_eq!(result, Err(GovernanceRejection::AuditRejected));
}

#[test]
fn deterministic_replay_log_persists_seed_sync_and_decision() {
    let clock = LamportClock::new();
    let envelope = build_with(sample_vector(), sample_state(), sample_provenance(), next_stamp(&clock))
        .expect("should pass governance");

    let mut replay = DeterministicReplayLog::new();
    replay.push(&envelope, governance_decision(&envelope));

    let row = replay.records().first().expect("one row");
    assert_eq!(row.sync_id, envelope.sync_id());
    assert_eq!(row.entropy_seed, envelope.metadata().entropy_seed);
    assert_eq!(row.decision, GovernanceDecision::Accepted);
}

#[test]
fn ghost_worker_ledger_keeps_speculative_until_confirmation() {
    let mut ledger = GhostWorkerSafetyLedger::new();
    ledger.push_speculative(10, 0xABCD);
    ledger.push_speculative(11, 0xBCDE);

    assert_eq!(ledger.committed_count(), 0);
    assert!(ledger.confirm_commit(11));
    assert_eq!(ledger.committed_count(), 1);
    assert!(!ledger.confirm_commit(77));
}

#[test]
fn ledger_confirms_each_entry_once() {
    let mut ledger = GhostWorkerSafetyLedger::new();
    ledger.push_speculative(10, 1);
    ledger.push_speculative(10, 2);
    assert!(ledger.confirm_commit(10));
    assert!(ledger.confirm_commit(10));
    assert!(!ledger.confirm_commit(10));
    assert_eq!(ledger.committed_count(), 2);
}

#[test]
fn envelope_pool_reuses_preallocated_slots() {
    let seed = build_with(sample_vector(), sample_state(), sample_provenance(), 9)
        .expect("seed should pass");

    let mut pool = HugePageEnvelopePool::with_capacity(8, seed);
    assert_eq!(pool.capacity(), 8);
    assert!(pool.approx_hugepage_blocks() >= 1);

    let slot = pool.checkout();
    assert!(slot.frozen());
}

#[test]
fn pool_checkouts_cycle_through_slots() {
    let seed = build_with(sample_vector(), zero_state(), sample_provenance(), 100)
        .expect("seed should pass");
    let mut pool = HugePageEnvelopePool::with_capacity(8, seed);
    assert_eq!(pool.approx_hugepage_blocks(), 1);
    for k in 0..8u64 {
        let slot = pool.checkout();
        assert_eq!(slot.sync_id(), 100);
        *slot = build_with(sample_vector(), zero_state(), sample_provenance(), k)
            .expect("slot should pass");
    }
    assert_eq!(pool.checkout().sync_id(), 0);
    assert_eq!(pool.checkout().sync_id(), 1);
}

#[test]
fn pool_of_zero_capacity_keeps_one_slot() {
    let seed = build_with(sample_vector(), zero_state(), sample_provenance(), 1)
        .expect("seed should pass");
    let mut pool = HugePageEnvelopePool::with_capacity(0, seed);
    assert_eq!(pool.capacity(), 1);
    assert_eq!(pool.approx_hugepage_blocks(), 1);
    let big = HugePageEnvelopePool::with_capacity(498, seed);
    assert_eq!(big.approx_hugepage_blocks(), 2);
    assert_eq!(pool.checkout().sync_id(), 1);
    assert_eq!(pool.checkout().sync_id(), 1);
}

#[test]
fn envelope_bytes_follow_record_layout() {
    let mut vector = [0u32; INTENT_DIMENSIONS];
    vector[0] = 0x0403_0201;
    let envelope = build_with(vector, zero_state(), sample_provenance(), 0x0102_0304_0506_0708)
        .expect("valid parts");
    let bytes = envelope.as_bytes_slice();
    assert_eq!(bytes.len(), 4216);
    assert_eq!(&bytes[0..8], &[8, 7, 6, 5, 4, 3, 2, 1]);
    assert_eq!(&bytes[8..12], &[1, 0, 0, 0]);
    assert_eq!(&bytes[12..16], &[1, 0, 0, 0]);
    assert_eq!(&bytes[16..20], &[1, 2, 3, 4]);
    assert_eq!(&bytes[4144..4176], &[7u8; 32]);
    assert_eq!(&bytes[4176..4184], &0x7ffd1234u64.to_le_bytes());
    assert_eq!(&bytes[4184..4188], &0xabcdu32.to_le_bytes());
    assert_eq!(bytes[4188], 0);
    assert_eq!(&bytes[4192..4200], &identity_annihilation("agent_alpha_v3").to_le_bytes());
    assert_eq!(&bytes[4200..4208], &0xDEADBEEFu64.to_le_bytes());
    assert_eq!(bytes[4208], 1);
}

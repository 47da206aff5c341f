//! The envelope record and its three descriptors.
use vstd::prelude::*;

use crate::binary32::{is_within_unit, within_unit};
use crate::{ENTROPY_SEED_BYTES, INTENT_DIMENSIONS};

verus! {

/// Bytes of a cognitive state in the record layout: eight binary32 lanes.
pub const COGNITIVE_STATE_BYTES: usize = 32;

/// Bytes of the metadata in the record layout: seed, handle, key, flag, pad.
pub const METADATA_BYTES: usize = 48;

/// Bytes of the provenance in the record layout: two hashes, flag, pad.
pub const PROVENANCE_BYTES: usize = 24;

/// Bytes of an envelope in the record layout: sync id, version, frozen flag,
/// three pad bytes, the intent vector, then the three descriptors.
pub const ENVELOPE_BYTES: usize = 8 + 4 + 1 + 3 + 4 * INTENT_DIMENSIONS + COGNITIVE_STATE_BYTES
    + METADATA_BYTES + PROVENANCE_BYTES;

/// Eight single-precision dispositions of the producer, as binary32 bit
/// patterns, in layout order.
#[derive(Debug, Clone, Copy, PartialEq)]
pub struct CognitiveState {
    pub explore_resolve: u32,
    pub abstract_concrete: u32,
    pub subjective_objective: u32,
    pub divergent_convergent: u32,
    pub passive_active: u32,
    pub emotional_valence: u32,
    pub energy_level: u32,
    pub turbulence: u32,
}

impl CognitiveState {
    /// Every component lies in `[-1.0, 1.0]`.
    pub open spec fn normalized(&self) -> bool {
        &&& within_unit(self.explore_resolve)
        &&& within_unit(self.abstract_concrete)
        &&& within_unit(self.subjective_objective)
        &&& within_unit(self.divergent_convergent)
        &&& within_unit(self.passive_active)
        &&& within_unit(self.emotional_valence)
        &&& within_unit(self.energy_level)
        &&& within_unit(self.turbulence)
    }

    /// Whether every component lies in `[-1.0, 1.0]` (a NaN never does).
    pub fn is_normalized(&self) -> (r: bool)
        ensures
            r == self.normalized(),
    {
        is_within_unit(self.explore_resolve) && is_within_unit(self.abstract_concrete)
            && is_within_unit(self.subjective_objective) && is_within_unit(
            self.divergent_convergent,
        ) && is_within_unit(self.passive_active) && is_within_unit(self.emotional_valence)
            && is_within_unit(self.energy_level) && is_within_unit(self.turbulence)
    }
}

/// Handoff data for the remote-memory payload.
#[derive(Debug, Clone, Copy, PartialEq)]
pub struct TachyonMetadata {
    pub entropy_seed: [u8; ENTROPY_SEED_BYTES],
    /// Opaque remote-memory handle.
    pub payload_ptr: u64,
    /// Opaque remote key.
    pub rkey: u32,
    pub ghost_flag: bool,
    pub _padding: [u8; 3],
}

/// Who sent the envelope and whether it was cleared by audit.
#[derive(Debug, Clone, Copy, PartialEq)]
pub struct Provenance {
    pub sender_hash: u64,
    pub integrity_hash: u64,
    pub audit_clearance: bool,
    pub _padding: [u8; 7],
}

/// What an envelope holds, with the intent vector as a sequence.
pub struct EnvelopeView {
    pub sync_id: u64,
    pub version: u32,
    pub frozen: bool,
    pub intent_vector: Seq<u32>,
    pub cognitive_state: CognitiveState,
    pub metadata: TachyonMetadata,
    pub provenance: Provenance,
}

/// A versioned intent record. Its fields are private: it is made by the
/// builder and read through accessors only.
#[derive(Debug, Clone, Copy, PartialEq)]
pub struct IntentVectorV2 {
    sync_id: u64,
    version: u32,
    frozen: bool,
    _header_padding: [u8; 3],
    intent_vector: [u32; INTENT_DIMENSIONS],
    cognitive_state: CognitiveState,
    tachyon_metadata: TachyonMetadata,
    provenance: Provenance,
}

impl View for IntentVectorV2 {
    type V = EnvelopeView;

    closed spec fn view(&self) -> EnvelopeView {
        EnvelopeView {
            sync_id: self.sync_id,
            version: self.version,
            frozen: self.frozen,
            intent_vector: self.intent_vector@,
            cognitive_state: self.cognitive_state,
            metadata: self.tachyon_metadata,
            provenance: self.provenance,
        }
    }
}

impl IntentVectorV2 {
    /// An envelope holding exactly what it is given, frozen.
    pub(crate) fn assemble(
        sync_id: u64,
        version: u32,
        intent_vector: [u32; INTENT_DIMENSIONS],
        cognitive_state: CognitiveState,
        tachyon_metadata: TachyonMetadata,
        provenance: Provenance,
    ) -> (r: Self)
        ensures
            r@ == (EnvelopeView {
                sync_id,
                version,
                frozen: true,
                intent_vector: intent_vector@,
                cognitive_state,
                metadata: tachyon_metadata,
                provenance,
            }),
    {
        IntentVectorV2 {
            sync_id,
            version,
            frozen: true,
            _header_padding: [0u8; 3],
            intent_vector,
            cognitive_state,
            tachyon_metadata,
            provenance,
        }
    }

    /// Size of the record layout in bytes.
    pub fn size_in_bytes() -> (r: usize)
        ensures
            r == ENVELOPE_BYTES,
    {
        ENVELOPE_BYTES
    }

    pub fn sync_id(&self) -> (r: u64)
        ensures
            r == self@.sync_id,
    {
        self.sync_id
    }

    pub fn version(&self) -> (r: u32)
        ensures
            r == self@.version,
    {
        self.version
    }

    pub fn frozen(&self) -> (r: bool)
        ensures
            r == self@.frozen,
    {
        self.frozen
    }

    pub fn intent_vector(&self) -> (r: &[u32; INTENT_DIMENSIONS])
        ensures
            r@ == self@.intent_vector,
    {
        &self.intent_vector
    }

    pub fn cognitive_state(&self) -> (r: &CognitiveState)
        ensures
            *r == self@.cognitive_state,
    {
        &self.cognitive_state
    }

    pub fn metadata(&self) -> (r: &TachyonMetadata)
        ensures
            *r == self@.metadata,
    {
        &self.tachyon_metadata
    }

    pub fn provenance(&self) -> (r: &Provenance)
        ensures
            *r == self@.provenance,
    {
        &self.provenance
    }
}

} // verus!

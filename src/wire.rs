//! The compact wire record that carries an intent vector to the scripting
//! side, and the engine that fills it from a caller's id and vector.
use vstd::prelude::*;
use vstd::string::StringSliceAdditionalSpecFns;

use crate::layout::{lanes_bytes, le_bytes, lemma_le_bytes_len, lemma_lanes_bytes_len, push_bytes,
    push_lanes, push_le};
use crate::INTENT_DIMENSIONS;

verus! {

/// Bytes of a wire record: sync id, entity id, the vector, entropy seed,
/// ghost flag, seven pad bytes.
pub const INTENT_VECTOR_WIRE_BYTES: usize = 4128;

/// The XXH64 digest of `input` under `seed`.
pub uninterp spec fn xxh64_of(input: Seq<u8>, seed: u64) -> u64;

/// Relies on `xxhash_rust::xxh64::xxh64`: the XXH64 digest of the bytes under
/// the seed, which depends on those two alone.
#[verifier::external_body]
fn xxh64_digest(input: &[u8], seed: u64) -> (r: u64)
    ensures
        r == xxh64_of(input@, seed),
{
    xxhash_rust::xxh64::xxh64(input, seed)
}

/// The wire record; the vector holds binary32 bit patterns.
#[derive(Debug, Clone, Copy, PartialEq)]
pub struct IntentVectorWireV2 {
    pub sync_id: u64,
    pub entity_id: u64,
    pub vector: [u32; INTENT_DIMENSIONS],
    pub entropy_seed: u64,
    pub ghost_flag: u8,
    pub _padding: [u8; 7],
}

/// The wire layout of a record with these fields.
pub open spec fn wire_bytes(
    sync_id: u64,
    entity_id: u64,
    vector: Seq<u32>,
    entropy_seed: u64,
    ghost_flag: u8,
    padding: Seq<u8>,
) -> Seq<u8> {
    le_bytes(sync_id as nat, 8) + le_bytes(entity_id as nat, 8) + lanes_bytes(vector) + le_bytes(
        entropy_seed as nat,
        8,
    ) + seq![ghost_flag] + padding
}

impl IntentVectorWireV2 {
    /// The record's wire layout, `INTENT_VECTOR_WIRE_BYTES` long.
    pub fn as_bytes_slice(&self) -> (r: Vec<u8>)
        ensures
            r@ == wire_bytes(
                self.sync_id,
                self.entity_id,
                self.vector@,
                self.entropy_seed,
                self.ghost_flag,
                self._padding@,
            ),
            r@.len() == INTENT_VECTOR_WIRE_BYTES,
    {
        let mut out: Vec<u8> = Vec::new();
        push_le(&mut out, self.sync_id, 8);
        push_le(&mut out, self.entity_id, 8);
        push_lanes(&mut out, self.vector.as_slice());
        push_le(&mut out, self.entropy_seed, 8);
        out.push(self.ghost_flag);
        push_bytes(&mut out, self._padding.as_slice());
        proof {
            lemma_le_bytes_len(self.sync_id as nat, 8);
            lemma_le_bytes_len(self.entity_id as nat, 8);
            lemma_lanes_bytes_len(self.vector@);
            lemma_le_bytes_len(self.entropy_seed as nat, 8);
            assert(out@ =~= wire_bytes(
                self.sync_id,
                self.entity_id,
                self.vector@,
                self.entropy_seed,
                self.ghost_flag,
                self._padding@,
            ));
        }
        out
    }
}

/// The seed under which a caller's entropy is drawn: 3 and 2 for those
/// priorities, 1 for every other.
pub open spec fn entropy_salt(priority: u8) -> u64 {
    if priority == 3 {
        3
    } else if priority == 2 {
        2
    } else {
        1
    }
}

/// The first `INTENT_DIMENSIONS` values of `data`, padded with zero lanes.
pub open spec fn fitted_vector(data: Seq<u32>) -> Seq<u32> {
    Seq::new(
        INTENT_DIMENSIONS as nat,
        |i: int|
            if i < data.len() {
                data[i]
            } else {
                0u32
            },
    )
}

/// The wire record for a caller, once its two digests are known.
pub fn wire_record(
    sync_id: u64,
    entity_id: u64,
    vector_data: &[u32],
    entropy_seed: u64,
) -> (r: IntentVectorWireV2)
    ensures
        r.sync_id == sync_id,
        r.entity_id == entity_id,
        r.vector@ == fitted_vector(vector_data@),
        r.entropy_seed == entropy_seed,
        r.ghost_flag == 0,
        r._padding@ == seq![0u8, 0u8, 0u8, 0u8, 0u8, 0u8, 0u8],
{
    let mut vector = [0u32; INTENT_DIMENSIONS];
    let len = if vector_data.len() < INTENT_DIMENSIONS {
        vector_data.len()
    } else {
        INTENT_DIMENSIONS
    };
    let mut i: usize = 0;
    while i < len
        invariant
            len <= INTENT_DIMENSIONS,
            len <= vector_data@.len(),
            len == vector_data@.len() || len == INTENT_DIMENSIONS,
            i <= len,
            vector@.len() == INTENT_DIMENSIONS,
            forall|k: int| 0 <= k < INTENT_DIMENSIONS ==> #[trigger] vector@[k] == (if k < i {
                vector_data@[k]
            } else {
                0u32
            }),
        decreases len - i,
    {
        vector[i] = vector_data[i];
        i += 1;
    }
    assert(vector@ =~= fitted_vector(vector_data@));
    let r = IntentVectorWireV2 {
        sync_id,
        entity_id,
        vector,
        entropy_seed,
        ghost_flag: 0,
        _padding: [0u8; 7],
    };
    assert(r._padding@ =~= seq![0u8, 0u8, 0u8, 0u8, 0u8, 0u8, 0u8]);
    r
}

/// Turns callers' intents into wire records.
pub struct TachyonEngine;

impl TachyonEngine {
    pub fn new() -> (r: Self) {
        TachyonEngine
    }

    /// The wire bytes for `user_id`'s vector under `sync_id`: the entity id is
    /// the XXH64 digest of the id under seed 0, the entropy seed its digest
    /// under the priority's salt, and the vector is cut or zero-padded to
    /// `INTENT_DIMENSIONS` lanes.
    pub fn process_intent(&self, user_id: &str, vector_data: &[u32], priority: u8, sync_id: u64) -> (r:
        Vec<u8>)
        ensures
            r@ == wire_bytes(
                sync_id,
                xxh64_of(user_id.spec_bytes(), 0),
                fitted_vector(vector_data@),
                xxh64_of(user_id.spec_bytes(), entropy_salt(priority)),
                0,
                seq![0u8, 0u8, 0u8, 0u8, 0u8, 0u8, 0u8],
            ),
    {
        let entropy_salt: u64 = match priority {
            3 => 3,
            2 => 2,
            _ => 1,
        };
        let id_bytes = user_id.as_bytes();
        let wire = wire_record(
            sync_id,
            xxh64_digest(id_bytes, 0),
            vector_data,
            xxh64_digest(id_bytes, entropy_salt),
        );
        wire.as_bytes_slice()
    }
}

} // verus!

//! Byte images of the records, field by field in layout order, each
//! multi-byte field least significant byte first (the byte order of the
//! targets this library runs on).
use vstd::prelude::*;

use crate::envelope::{
    CognitiveState, EnvelopeView, IntentVectorV2, Provenance, TachyonMetadata, ENVELOPE_BYTES,
};

verus! {

/// The `n` low-order bytes of `x`, least significant first.
pub open spec fn le_bytes(x: nat, n: nat) -> Seq<u8>
    decreases n,
{
    if n == 0 {
        Seq::empty()
    } else {
        seq![(x % 256) as u8] + le_bytes(x / 256, (n - 1) as nat)
    }
}

/// One byte for a flag: 1 for true, 0 for false.
pub open spec fn flag_byte(b: bool) -> u8 {
    if b {
        1
    } else {
        0
    }
}

/// Binary32 lanes, four bytes each.
pub open spec fn lanes_bytes(v: Seq<u32>) -> Seq<u8>
    decreases v.len(),
{
    if v.len() == 0 {
        Seq::empty()
    } else {
        lanes_bytes(v.drop_last()) + le_bytes(v.last() as nat, 4)
    }
}

/// The eight lanes of a cognitive state in field order.
pub open spec fn state_lanes(s: CognitiveState) -> Seq<u32> {
    seq![
        s.explore_resolve,
        s.abstract_concrete,
        s.subjective_objective,
        s.divergent_convergent,
        s.passive_active,
        s.emotional_valence,
        s.energy_level,
        s.turbulence,
    ]
}

pub open spec fn metadata_bytes(m: TachyonMetadata) -> Seq<u8> {
    m.entropy_seed@ + le_bytes(m.payload_ptr as nat, 8) + le_bytes(m.rkey as nat, 4) + seq![
        flag_byte(m.ghost_flag),
    ] + m._padding@
}

pub open spec fn provenance_bytes(p: Provenance) -> Seq<u8> {
    le_bytes(p.sender_hash as nat, 8) + le_bytes(p.integrity_hash as nat, 8) + seq![
        flag_byte(p.audit_clearance),
    ] + p._padding@
}

/// The record layout of an envelope; its three header pad bytes are zero.
pub open spec fn envelope_bytes(e: EnvelopeView) -> Seq<u8> {
    le_bytes(e.sync_id as nat, 8) + le_bytes(e.version as nat, 4) + seq![
        flag_byte(e.frozen),
        0u8,
        0u8,
        0u8,
    ] + lanes_bytes(e.intent_vector) + lanes_bytes(state_lanes(e.cognitive_state))
        + metadata_bytes(e.metadata) + provenance_bytes(e.provenance)
}

pub proof fn lemma_le_bytes_len(x: nat, n: nat)
    ensures
        le_bytes(x, n).len() == n,
    decreases n,
{
    if n > 0 {
        lemma_le_bytes_len(x / 256, (n - 1) as nat);
    }
}

pub proof fn lemma_lanes_bytes_len(v: Seq<u32>)
    ensures
        lanes_bytes(v).len() == 4 * v.len(),
    decreases v.len(),
{
    if v.len() > 0 {
        lemma_lanes_bytes_len(v.drop_last());
        lemma_le_bytes_len(v.last() as nat, 4);
    }
}

/// Appends the `n` low-order bytes of `x`, least significant first.
pub fn push_le(out: &mut Vec<u8>, x: u64, n: usize)
    ensures
        final(out)@ == old(out)@ + le_bytes(x as nat, n as nat),
{
    let mut rest: u64 = x;
    let mut i: usize = 0;
    while i < n
        invariant
            i <= n,
            out@ + le_bytes(rest as nat, (n - i) as nat) == old(out)@ + le_bytes(x as nat, n as nat),
        decreases n - i,
    {
        let ghost before = out@;
        out.push((rest % 256) as u8);
        assert(before + le_bytes(rest as nat, (n - i) as nat) =~= out@ + le_bytes(
            (rest / 256) as nat,
            (n - i - 1) as nat,
        ));
        rest = rest / 256;
        i += 1;
    }
    assert(out@ + le_bytes(rest as nat, 0) =~= out@);
}

/// Appends binary32 lanes, four bytes each.
pub fn push_lanes(out: &mut Vec<u8>, lanes: &[u32])
    ensures
        final(out)@ == old(out)@ + lanes_bytes(lanes@),
{
    let mut i: usize = 0;
    while i < lanes.len()
        invariant
            i <= lanes@.len(),
            out@ == old(out)@ + lanes_bytes(lanes@.subrange(0, i as int)),
        decreases lanes@.len() - i,
    {
        let ghost before = out@;
        push_le(out, lanes[i] as u64, 4);
        assert(lanes@.subrange(0, i + 1).drop_last() =~= lanes@.subrange(0, i as int));
        assert(out@ =~= old(out)@ + lanes_bytes(lanes@.subrange(0, i + 1)));
        i += 1;
    }
    assert(lanes@.subrange(0, i as int) =~= lanes@);
}

/// Appends raw bytes.
pub fn push_bytes(out: &mut Vec<u8>, bytes: &[u8])
    ensures
        final(out)@ == old(out)@ + bytes@,
{
    let mut i: usize = 0;
    while i < bytes.len()
        invariant
            i <= bytes@.len(),
            out@ == old(out)@ + bytes@.subrange(0, i as int),
        decreases bytes@.len() - i,
    {
        out.push(bytes[i]);
        assert(out@ =~= old(out)@ + bytes@.subrange(0, i + 1));
        i += 1;
    }
    assert(bytes@.subrange(0, i as int) =~= bytes@);
}

fn flag(b: bool) -> (r: u8)
    ensures
        r == flag_byte(b),
{
    if b {
        1
    } else {
        0
    }
}

impl IntentVectorV2 {
    /// The envelope's record layout, `ENVELOPE_BYTES` long.
    pub fn as_bytes_slice(&self) -> (r: Vec<u8>)
        ensures
            r@ == envelope_bytes(self@),
            r@.len() == ENVELOPE_BYTES,
    {
        let mut out: Vec<u8> = Vec::new();
        push_le(&mut out, self.sync_id(), 8);
        push_le(&mut out, self.version() as u64, 4);
        out.push(flag(self.frozen()));
        out.push(0);
        out.push(0);
        out.push(0);
        push_lanes(&mut out, self.intent_vector().as_slice());
        let s = self.cognitive_state();
        let lanes = [
            s.explore_resolve,
            s.abstract_concrete,
            s.subjective_objective,
            s.divergent_convergent,
            s.passive_active,
            s.emotional_valence,
            s.energy_level,
            s.turbulence,
        ];
        assert(lanes@ =~= state_lanes(self@.cognitive_state));
        push_lanes(&mut out, lanes.as_slice());
        let m = self.metadata();
        push_bytes(&mut out, m.entropy_seed.as_slice());
        push_le(&mut out, m.payload_ptr, 8);
        push_le(&mut out, m.rkey as u64, 4);
        out.push(flag(m.ghost_flag));
        push_bytes(&mut out, m._padding.as_slice());
        let p = self.provenance();
        push_le(&mut out, p.sender_hash, 8);
        push_le(&mut out, p.integrity_hash, 8);
        out.push(flag(p.audit_clearance));
        push_bytes(&mut out, p._padding.as_slice());
        proof {
            let e = self@;
            lemma_le_bytes_len(e.sync_id as nat, 8);
            lemma_le_bytes_len(e.version as nat, 4);
            lemma_lanes_bytes_len(e.intent_vector);
            lemma_lanes_bytes_len(state_lanes(e.cognitive_state));
            lemma_le_bytes_len(e.metadata.payload_ptr as nat, 8);
            lemma_le_bytes_len(e.metadata.rkey as nat, 4);
            lemma_le_bytes_len(e.provenance.sender_hash as nat, 8);
            lemma_le_bytes_len(e.provenance.integrity_hash as nat, 8);
            assert(out@ =~= envelope_bytes(e));
        }
        out
    }
}

} // verus!

//! The three governance gates (Inspira, Firma, Audit) and the decision they
//! reach together.
use vstd::prelude::*;

use crate::binary32::{
    abs_bits, abs_exceeds_one, clamp_to_unit, clamp_unit, exceeds, greater_than, is_finite,
    is_finite_bits, magnitude, INFINITY, ONE,
};
use crate::envelope::{CognitiveState, EnvelopeView, IntentVectorV2, Provenance};
use crate::INTENT_DIMENSIONS;
use vstd::arithmetic::div_mod::lemma_fundamental_div_mod;

verus! {

/// Why an envelope was not produced.
#[derive(Debug, Clone, Copy, PartialEq, Eq, Structural)]
pub enum GovernanceRejection {
    MissingCognitiveState,
    MissingMetadata,
    MissingProvenance,
    InspiraRejected,
    FirmaRejected,
    AuditRejected,
}

/// The outcome of the three gates on a built envelope.
#[derive(Debug, Clone, Copy, PartialEq, Eq, Structural)]
pub enum GovernanceDecision {
    Accepted,
    InspiraRejected,
    FirmaRejected,
    AuditRejected,
}

/// The bit pattern of `0.9f32`, the highest turbulence that Inspira admits.
pub const TURBULENCE_LIMIT: u32 = 0x3F66_6666;

/// Lanes tested together by the wide Firma path (eight binary32 lanes, as in
/// a 256-bit register).
pub const WIDE_LANES: usize = 8;

/// Inspira admits a normalized cognitive state whose turbulence is at most 0.9.
pub open spec fn inspira_passes(s: CognitiveState) -> bool {
    s.normalized() && !greater_than(s.turbulence, TURBULENCE_LIMIT)
}

/// A lane that Firma refuses: not finite, or of absolute value above 1.0.
pub open spec fn invalid_lane(b: u32) -> bool {
    !is_finite(b) || abs_exceeds_one(b)
}

/// Some lane of the vector is refused by Firma.
pub open spec fn has_invalid_lane(v: Seq<u32>) -> bool {
    exists|i: int| 0 <= i < v.len() && #[trigger] invalid_lane(v[i])
}

/// Firma admits a vector whose lanes are all finite and within `[-1.0, 1.0]`.
pub open spec fn firma_passes(v: Seq<u32>) -> bool {
    !has_invalid_lane(v)
}

/// Audit admits a cleared provenance.
pub open spec fn audit_passes(p: Provenance) -> bool {
    p.audit_clearance
}

/// The decision on an envelope: the first gate that refuses it, in the order
/// Inspira, Firma, Audit, or acceptance.
pub open spec fn decision_of(e: EnvelopeView) -> GovernanceDecision {
    if !inspira_passes(e.cognitive_state) {
        GovernanceDecision::InspiraRejected
    } else if !firma_passes(e.intent_vector) {
        GovernanceDecision::FirmaRejected
    } else if !audit_passes(e.provenance) {
        GovernanceDecision::AuditRejected
    } else {
        GovernanceDecision::Accepted
    }
}

/// The rejection that goes with a refusing decision.
pub open spec fn rejection_of(d: GovernanceDecision) -> GovernanceRejection {
    match d {
        GovernanceDecision::InspiraRejected => GovernanceRejection::InspiraRejected,
        GovernanceDecision::FirmaRejected => GovernanceRejection::FirmaRejected,
        _ => GovernanceRejection::AuditRejected,
    }
}

/// The outcome of the veto on an envelope.
pub open spec fn veto_of(e: EnvelopeView) -> Result<(), GovernanceRejection> {
    if decision_of(e) == GovernanceDecision::Accepted {
        Ok(())
    } else {
        Err(rejection_of(decision_of(e)))
    }
}

/// The decision accepts exactly when the veto lets the envelope
/// through, and otherwise names the check whose rejection the veto returns.
pub proof fn lemma_decision_agrees_with_veto(e: EnvelopeView)
    ensures
        decision_of(e) == GovernanceDecision::Accepted <==> veto_of(e) is Ok,
        decision_of(e) != GovernanceDecision::Accepted ==> veto_of(e) == Err::<(), GovernanceRejection>(
            rejection_of(decision_of(e)),
        ),
        decision_of(e) == GovernanceDecision::InspiraRejected <==> !inspira_passes(e.cognitive_state),
        decision_of(e) == GovernanceDecision::FirmaRejected <==> inspira_passes(e.cognitive_state)
            && !firma_passes(e.intent_vector),
        decision_of(e) == GovernanceDecision::AuditRejected <==> inspira_passes(e.cognitive_state)
            && firma_passes(e.intent_vector) && !audit_passes(e.provenance),
{
}

/// Runs Inspira, Firma and Audit in order and stops at the first refusal.
pub fn run_governance_veto(vector: &IntentVectorV2) -> (r: Result<(), GovernanceRejection>)
    ensures
        r == veto_of(vector@),
{
    inspira_check(vector)?;
    firma_check(vector)?;
    audit_gate(vector)?;
    Ok(())
}

/// The decision of the three gates, never failing.
pub fn governance_decision(vector: &IntentVectorV2) -> (r: GovernanceDecision)
    ensures
        r == decision_of(vector@),
        r == GovernanceDecision::Accepted <==> inspira_passes(vector@.cognitive_state)
            && firma_passes(vector@.intent_vector) && audit_passes(vector@.provenance),
{
    if inspira_check(vector).is_err() {
        return GovernanceDecision::InspiraRejected;
    }
    if firma_check(vector).is_err() {
        return GovernanceDecision::FirmaRejected;
    }
    if audit_gate(vector).is_err() {
        return GovernanceDecision::AuditRejected;
    }
    GovernanceDecision::Accepted
}

fn inspira_check(vector: &IntentVectorV2) -> (r: Result<(), GovernanceRejection>)
    ensures
        r == (if inspira_passes(vector@.cognitive_state) {
            Ok(())
        } else {
            Err(GovernanceRejection::InspiraRejected)
        }),
{
    let state = vector.cognitive_state();
    if !state.is_normalized() {
        return Err(GovernanceRejection::InspiraRejected);
    }
    if exceeds(state.turbulence, TURBULENCE_LIMIT) {
        return Err(GovernanceRejection::InspiraRejected);
    }
    Ok(())
}

fn firma_check(vector: &IntentVectorV2) -> (r: Result<(), GovernanceRejection>)
    ensures
        r == (if firma_passes(vector@.intent_vector) {
            Ok(())
        } else {
            Err(GovernanceRejection::FirmaRejected)
        }),
{
    if has_invalid_intent_values(vector.intent_vector()) {
        return Err(GovernanceRejection::FirmaRejected);
    }
    Ok(())
}

fn audit_gate(vector: &IntentVectorV2) -> (r: Result<(), GovernanceRejection>)
    ensures
        r == (if audit_passes(vector@.provenance) {
            Ok(())
        } else {
            Err(GovernanceRejection::AuditRejected)
        }),
{
    if !vector.provenance().audit_clearance {
        return Err(GovernanceRejection::AuditRejected);
    }
    Ok(())
}

/// Whether some lane is non-finite or of absolute value above 1.0; takes the
/// wide path.
pub fn has_invalid_intent_values(vector: &[u32; INTENT_DIMENSIONS]) -> (r: bool)
    ensures
        r == has_invalid_lane(vector@),
{
    has_invalid_intent_values_lanes(vector, WIDE_LANES)
}

/// The reference path: one lane at a time.
pub fn has_invalid_intent_values_scalar(vector: &[u32; INTENT_DIMENSIONS]) -> (r: bool)
    ensures
        r == has_invalid_lane(vector@),
{
    let mut i: usize = 0;
    while i < INTENT_DIMENSIONS
        invariant
            0 <= i <= INTENT_DIMENSIONS,
            vector@.len() == INTENT_DIMENSIONS,
            forall|j: int| 0 <= j < i ==> !invalid_lane(#[trigger] vector@[j]),
        decreases INTENT_DIMENSIONS - i,
    {
        let value = vector[i];
        if !is_finite_bits(value) || exceeds_one(value) {
            assert(invalid_lane(vector@[i as int]));
            return true;
        }
        i += 1;
    }
    false
}

/// `|x| > 1.0`, ordered (false for NaN).
fn exceeds_one(b: u32) -> (r: bool)
    ensures
        r == abs_exceeds_one(b),
{
    let m = abs_bits(b);
    m <= INFINITY && m > ONE
}

/// The all-ones lane mask when `bad`, else zero (a vector comparison result).
fn lane_mask(bad: bool) -> (r: u32)
    ensures
        bad ==> r == 0xFFFF_FFFFu32,
        !bad ==> r == 0,
{
    if bad {
        0xFFFF_FFFFu32
    } else {
        0
    }
}

/// The wide path: the vector is read in chunks of `lanes` lanes. Each lane
/// yields an ordered `|x| > 1.0` mask and an unordered (NaN) mask; the two are
/// joined, the lanes' top bits are gathered into one word, and the scan stops
/// at the first chunk whose word is not zero.
pub fn has_invalid_intent_values_lanes(vector: &[u32; INTENT_DIMENSIONS], lanes: usize) -> (r:
    bool)
    requires
        1 <= lanes <= 32,
        (INTENT_DIMENSIONS as int) % (lanes as int) == 0,
    ensures
        r == has_invalid_lane(vector@),
{
    let mut base: usize = 0;
    let ghost mut chunk: int = 0;
    while base < INTENT_DIMENSIONS
        invariant
            vector@.len() == INTENT_DIMENSIONS,
            (INTENT_DIMENSIONS as int) % (lanes as int) == 0,
            0 <= chunk,
            base == chunk * lanes,
            1 <= lanes <= 32,
            base <= INTENT_DIMENSIONS,
            base + lanes <= INTENT_DIMENSIONS || base == INTENT_DIMENSIONS,
            forall|j: int| 0 <= j < base ==> !invalid_lane(#[trigger] vector@[j]),
        decreases INTENT_DIMENSIONS - base,
    {
        let mut gathered: u32 = 0;
        let mut lane: usize = 0;
        while lane < lanes
            invariant
                vector@.len() == INTENT_DIMENSIONS,
                1 <= lanes <= 32,
                base + lanes <= INTENT_DIMENSIONS,
                lane <= lanes,
                gathered == 0 <==> forall|j: int|
                    base <= j < base + lane ==> !invalid_lane(#[trigger] vector@[j]),
            decreases lanes - lane,
        {
            let value = vector[base + lane];
            let m = abs_bits(value);
            let above = lane_mask(m <= INFINITY && m > ONE);
            let unordered = lane_mask(m > INFINITY);
            let bad = above | unordered;
            let top = (bad >> 31u32) << (lane as u32);
            let ghost before = gathered;
            let l = lane as u32;
            gathered = gathered | top;
            assert(invalid_lane(vector@[base + lane]) <==> (m > ONE)) by {
                assert(m == magnitude(value));
            }
            assert(bad == 0 || bad == 0xFFFF_FFFFu32) by (bit_vector)
                requires
                    bad == above | unordered,
                    above == 0 || above == 0xFFFF_FFFFu32,
                    unordered == 0 || unordered == 0xFFFF_FFFFu32,
            ;
            assert(gathered == 0 <==> (before == 0 && bad == 0)) by (bit_vector)
                requires
                    gathered == before | top,
                    top == (bad >> 31u32) << l,
                    l < 32,
                    bad == 0 || bad == 0xFFFF_FFFFu32,
            ;
            assert(bad == 0 <==> !(m > ONE)) by (bit_vector)
                requires
                    bad == above | unordered,
                    (m <= 0x7F80_0000u32 && m > 0x3F80_0000u32) ==> above == 0xFFFF_FFFFu32,
                    !(m <= 0x7F80_0000u32 && m > 0x3F80_0000u32) ==> above == 0,
                    m > 0x7F80_0000u32 ==> unordered == 0xFFFF_FFFFu32,
                    !(m > 0x7F80_0000u32) ==> unordered == 0,
            ;
            lane += 1;
        }
        if gathered != 0 {
            let ghost k = choose|j: int|
                base <= j < base + lanes && invalid_lane(#[trigger] vector@[j]);
            assert(invalid_lane(vector@[k]));
            return true;
        }
        proof {
            lemma_chunk_step(chunk, lanes as int);
            chunk = chunk + 1;
            assert(chunk * lanes == base + lanes) by (nonlinear_arith)
                requires
                    chunk == (chunk - 1) + 1,
                    base == (chunk - 1) * lanes,
            ;
        }
        base += lanes;
    }
    false
}

/// Chunks of `lanes` lanes tile the vector: past one chunk boundary either the
/// vector ends or another whole chunk fits.
proof fn lemma_chunk_step(chunk: int, lanes: int)
    requires
        1 <= lanes,
        0 <= chunk,
        (INTENT_DIMENSIONS as int) % lanes == 0,
        chunk * lanes + lanes <= INTENT_DIMENSIONS,
    ensures
        INTENT_DIMENSIONS - chunk * lanes - lanes == 0 || INTENT_DIMENSIONS - chunk * lanes
            - lanes >= lanes,
{
    let n = INTENT_DIMENSIONS as int;
    lemma_fundamental_div_mod(n, lanes);
    let b = n / lanes;
    assert(n == lanes * b);
    assert(n - chunk * lanes - lanes == lanes * (b - chunk - 1)) by (nonlinear_arith)
        requires
            n == lanes * b,
    ;
    if b - chunk - 1 >= 1 {
        assert(lanes * (b - chunk - 1) >= lanes) by (nonlinear_arith)
            requires
                b - chunk - 1 >= 1,
                lanes >= 1,
        ;
    } else if b - chunk - 1 < 0 {
        assert(lanes * (b - chunk - 1) < 0) by (nonlinear_arith)
            requires
                b - chunk - 1 < 0,
                lanes >= 1,
        ;
    }
}

/// Each lane clamped to `[-1.0, 1.0]`; NaN lanes are kept as they are.
pub fn normalize_intent_vector(input: &[u32; INTENT_DIMENSIONS]) -> (r: [u32; INTENT_DIMENSIONS])
    ensures
        forall|i: int| 0 <= i < INTENT_DIMENSIONS ==> #[trigger] r@[i] == clamp_unit(input@[i]),
{
    let mut out = [0u32; INTENT_DIMENSIONS];
    let mut idx: usize = 0;
    while idx < INTENT_DIMENSIONS
        invariant
            idx <= INTENT_DIMENSIONS,
            input@.len() == INTENT_DIMENSIONS,
            out@.len() == INTENT_DIMENSIONS,
            forall|i: int| 0 <= i < idx ==> #[trigger] out@[i] == clamp_unit(input@[i]),
        decreases INTENT_DIMENSIONS - idx,
    {
        out[idx] = clamp_to_unit(input[idx]);
        idx += 1;
    }
    out
}

} // verus!

//! Construction of envelopes: the descriptors are collected, a version and a
//! sync id are stamped on, and governance decides.
use vstd::prelude::*;

use crate::envelope::{CognitiveState, EnvelopeView, IntentVectorV2, Provenance, TachyonMetadata};
use crate::clock::{lamport_advance, lemma_stamps_increase};
use crate::governance::{audit_passes, decision_of, firma_passes, inspira_passes, rejection_of,
    run_governance_veto, GovernanceDecision, GovernanceRejection};
use crate::INTENT_DIMENSIONS;

verus! {

/// What a builder has collected so far.
pub struct BuilderView {
    pub intent_vector: Seq<u32>,
    pub cognitive_state: Option<CognitiveState>,
    pub metadata: Option<TachyonMetadata>,
    pub provenance: Option<Provenance>,
}

/// The outcome of building what `b` holds with the given version and sync id:
/// a missing descriptor first (state, metadata, provenance, in that order),
/// then the first gate that refuses the frozen envelope, else the envelope.
pub open spec fn build_outcome(b: BuilderView, version: u32, sync_id: u64) -> Result<
    EnvelopeView,
    GovernanceRejection,
> {
    match (b.cognitive_state, b.metadata, b.provenance) {
        (None, _, _) => Err(GovernanceRejection::MissingCognitiveState),
        (Some(_), None, _) => Err(GovernanceRejection::MissingMetadata),
        (Some(_), Some(_), None) => Err(GovernanceRejection::MissingProvenance),
        (Some(cognitive_state), Some(metadata), Some(provenance)) => {
            let e = EnvelopeView {
                sync_id,
                version,
                frozen: true,
                intent_vector: b.intent_vector,
                cognitive_state,
                metadata,
                provenance,
            };
            if decision_of(e) == GovernanceDecision::Accepted {
                Ok(e)
            } else {
                Err(rejection_of(decision_of(e)))
            }
        },
    }
}

/// The view of a built envelope, or the rejection.
pub open spec fn outcome_view(r: Result<IntentVectorV2, GovernanceRejection>) -> Result<
    EnvelopeView,
    GovernanceRejection,
> {
    match r {
        Ok(e) => Ok(e@),
        Err(x) => Err(x),
    }
}

/// A builder with all three descriptors, whose state is normalized with
/// turbulence at most 0.9, whose lanes are all finite and within
/// `[-1.0, 1.0]`, and whose provenance is cleared, builds a frozen version 1
/// envelope under a stamp of the Lamport clock, and that stamp is positive.
pub proof fn lemma_valid_parts_build(b: BuilderView, observed: u64, wall_clock_ms: u64)
    requires
        b.cognitive_state is Some,
        b.metadata is Some,
        b.provenance is Some,
        inspira_passes(b.cognitive_state->Some_0),
        firma_passes(b.intent_vector),
        audit_passes(b.provenance->Some_0),
    ensures
        build_outcome(b, 1, lamport_advance(observed, wall_clock_ms)) is Ok,
        ({
            let e = build_outcome(b, 1, lamport_advance(observed, wall_clock_ms))->Ok_0;
            e.frozen && e.version == 1 && e.sync_id > 0
        }),
{
}

/// Two builds in program order: when the second stamp is drawn from a counter
/// that already holds the first, the second envelope's sync id is the larger.
pub proof fn lemma_builds_in_order(
    first: BuilderView,
    second: BuilderView,
    first_sync_id: u64,
    observed: u64,
    wall_clock_ms: u64,
)
    requires
        build_outcome(first, 1, first_sync_id) is Ok,
        build_outcome(second, 1, lamport_advance(observed, wall_clock_ms)) is Ok,
        first_sync_id <= observed,
        first_sync_id < u64::MAX,
    ensures
        build_outcome(second, 1, lamport_advance(observed, wall_clock_ms))->Ok_0.sync_id
            > build_outcome(first, 1, first_sync_id)->Ok_0.sync_id,
{
    lemma_stamps_increase(first_sync_id, observed, wall_clock_ms);
}

/// Collects the parts of an envelope.
#[derive(Debug, Clone, Copy)]
pub struct IntentVectorBuilder {
    intent_vector: [u32; INTENT_DIMENSIONS],
    cognitive_state: Option<CognitiveState>,
    metadata: Option<TachyonMetadata>,
    provenance: Option<Provenance>,
}

impl View for IntentVectorBuilder {
    type V = BuilderView;

    closed spec fn view(&self) -> BuilderView {
        BuilderView {
            intent_vector: self.intent_vector@,
            cognitive_state: self.cognitive_state,
            metadata: self.metadata,
            provenance: self.provenance,
        }
    }
}

impl IntentVectorBuilder {
    /// A builder holding the intent vector and no descriptor yet.
    pub fn new(intent_vector: [u32; INTENT_DIMENSIONS]) -> (r: Self)
        ensures
            r@ == (BuilderView {
                intent_vector: intent_vector@,
                cognitive_state: None,
                metadata: None,
                provenance: None,
            }),
    {
        IntentVectorBuilder { intent_vector, cognitive_state: None, metadata: None, provenance: None }
    }

    pub fn with_cognitive_state(self, cognitive_state: CognitiveState) -> (r: Self)
        ensures
            r@ == (BuilderView { cognitive_state: Some(cognitive_state), ..self@ }),
    {
        let mut next = self;
        next.cognitive_state = Some(cognitive_state);
        next
    }

    pub fn with_metadata(self, metadata: TachyonMetadata) -> (r: Self)
        ensures
            r@ == (BuilderView { metadata: Some(metadata), ..self@ }),
    {
        let mut next = self;
        next.metadata = Some(metadata);
        next
    }

    pub fn with_provenance(self, provenance: Provenance) -> (r: Self)
        ensures
            r@ == (BuilderView { provenance: Some(provenance), ..self@ }),
    {
        let mut next = self;
        next.provenance = Some(provenance);
        next
    }

    /// Builds version 1 under `sync_id`, a stamp freshly issued by the
    /// process's Lamport clock.
    pub fn build(self, sync_id: u64) -> (r: Result<IntentVectorV2, GovernanceRejection>)
        ensures
            outcome_view(r) == build_outcome(self@, 1, sync_id),
    {
        self.build_with_version(1, sync_id)
    }

    /// Builds the given version under `sync_id`.
    pub fn build_with_version(self, version: u32, sync_id: u64) -> (r: Result<
        IntentVectorV2,
        GovernanceRejection,
    >)
        ensures
            outcome_view(r) == build_outcome(self@, version, sync_id),
    {
        let cognitive_state = match self.cognitive_state {
            Some(s) => s,
            None => return Err(GovernanceRejection::MissingCognitiveState),
        };
        let tachyon_metadata = match self.metadata {
            Some(m) => m,
            None => return Err(GovernanceRejection::MissingMetadata),
        };
        let provenance = match self.provenance {
            Some(p) => p,
            None => return Err(GovernanceRejection::MissingProvenance),
        };
        let envelope = IntentVectorV2::assemble(
            sync_id,
            version,
            self.intent_vector,
            cognitive_state,
            tachyon_metadata,
            provenance,
        );
        run_governance_veto(&envelope)?;
        Ok(envelope)
    }
}

impl IntentVectorV2 {
    /// The successor of this envelope: the given parts built as version
    /// `self.version() + 1` under `sync_id`.
    pub fn create_new_version(
        &self,
        next_vector: [u32; INTENT_DIMENSIONS],
        next_state: CognitiveState,
        next_metadata: TachyonMetadata,
        next_provenance: Provenance,
        sync_id: u64,
    ) -> (r: Result<Self, GovernanceRejection>)
        requires
            self@.version < u32::MAX,
        ensures
            outcome_view(r) == build_outcome(
                BuilderView {
                    intent_vector: next_vector@,
                    cognitive_state: Some(next_state),
                    metadata: Some(next_metadata),
                    provenance: Some(next_provenance),
                },
                (self@.version + 1) as u32,
                sync_id,
            ),
            r matches Ok(e) ==> e@.version == self@.version + 1 && e@.sync_id == sync_id,
    {
        IntentVectorBuilder::new(next_vector).with_cognitive_state(next_state).with_metadata(
            next_metadata,
        ).with_provenance(next_provenance).build_with_version(self.version() + 1, sync_id)
    }
}

} // verus!

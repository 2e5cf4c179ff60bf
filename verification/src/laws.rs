//! What holds of the workflow as a whole, proved over the effects that the
//! workflow's functions are specified by.

use vstd::prelude::*;

use crate::artifact::ArtifactId;
use crate::coordinator::{
    distributed_proving_effect, session_settled, transition, SessionEvent, SessionState,
};
use crate::engine::{parameter_bytes, DEGREE_LIMIT};
use crate::error::ErrorView;
use crate::family::{KeyPairView, Role};
use crate::parameters::{cached_parameters, parameters_valid, verifier_projection};
use crate::proving::{local_proving_effect, proving_inputs, ProvingInputsView};
use crate::setup::{setup_effect, setup_needed, SetupOutcome};
use crate::verification::{verification_effect, verification_inputs, VerificationInputsView};

verus! {

/// Setup is idempotent: once a setup call has succeeded, setup is no longer
/// needed, and another call writes nothing and reports the artifacts as
/// cached, whatever key generation would have answered.
pub proof fn lemma_setup_is_idempotent(
    store: Map<ArtifactId, Seq<u8>>,
    name: Seq<char>,
    degree: u32,
    first: Result<KeyPairView, ErrorView>,
    second: Result<KeyPairView, ErrorView>,
)
    ensures
        ({
            let (after, outcome) = setup_effect(store, name, degree, first);
            outcome is Ok ==> {
                &&& !setup_needed(after, name, degree)
                &&& setup_effect(after, name, degree, second) == (
                    after,
                    Ok::<SetupOutcome, ErrorView>(SetupOutcome::Cached),
                )
            }
        }),
{
}

/// Setup is deterministic: two calls that generate, for the same name and
/// degree and with the same answer of key generation, leave the same four
/// artifacts behind, whatever else their stores hold. The parameters are
/// those of the degree, and the verifier's are their projection.
pub proof fn lemma_setup_is_deterministic(
    left: Map<ArtifactId, Seq<u8>>,
    right: Map<ArtifactId, Seq<u8>>,
    name: Seq<char>,
    degree: u32,
    keys: KeyPairView,
)
    requires
        setup_needed(left, name, degree),
        setup_needed(right, name, degree),
        degree < DEGREE_LIMIT,
    ensures
        ({
            let after_left = setup_effect(left, name, degree, Ok(keys)).0;
            let after_right = setup_effect(right, name, degree, Ok(keys)).0;
            let params = ArtifactId::for_parameters(degree, false);
            let verifier_params = ArtifactId::for_parameters(degree, true);
            let verifying_key = ArtifactId::for_verifying_key(name);
            let proving_key = ArtifactId::for_proving_key(name);
            &&& after_left[params] == parameter_bytes(degree)
            &&& after_left[verifier_params] == verifier_projection(parameter_bytes(degree))
            &&& after_left[verifying_key] == keys.verifying_key
            &&& after_left[proving_key] == keys.proving_key
            &&& after_right[params] == after_left[params]
            &&& after_right[verifier_params] == after_left[verifier_params]
            &&& after_right[verifying_key] == after_left[verifying_key]
            &&& after_right[proving_key] == after_left[proving_key]
        }),
{
}

/// Setup touches the family's four artifacts and nothing else.
pub proof fn lemma_setup_keeps_other_artifacts(
    store: Map<ArtifactId, Seq<u8>>,
    name: Seq<char>,
    degree: u32,
    generated: Result<KeyPairView, ErrorView>,
    other: ArtifactId,
)
    requires
        other != ArtifactId::for_parameters(degree, false),
        other != ArtifactId::for_parameters(degree, true),
        other != ArtifactId::for_verifying_key(name),
        other != ArtifactId::for_proving_key(name),
    ensures
        ({
            let after = setup_effect(store, name, degree, generated).0;
            &&& after.contains_key(other) == store.contains_key(other)
            &&& store.contains_key(other) ==> after[other] == store[other]
        }),
{
}

/// From setup through proving to verification, the engine is handed what
/// the workflow cached: where setup generated the artifacts and the prover
/// returned a proof, proving was asked on the generated parameters and
/// proving key, verification is asked on the generated parameters, their
/// projection, the generated verifying key and that proof, and the call
/// returns the engine's verdict. This holds where the engine's parameters
/// of the degree are valid parameters of it, as every call of
/// `derive_parameters` shows them to be.
pub proof fn lemma_round_trip_reaches_the_engine(
    store: Map<ArtifactId, Seq<u8>>,
    name: Seq<char>,
    degree: u32,
    seed: Seq<u8>,
    keys: KeyPairView,
    proof: Seq<u8>,
    verdict: Result<(), ErrorView>,
)
    requires
        setup_needed(store, name, degree),
        parameters_valid(parameter_bytes(degree), degree),
    ensures
        ({
            let ready = setup_effect(store, name, degree, Ok(keys)).0;
            let proved = local_proving_effect(ready, name, degree, seed, Ok(proof)).0;
            &&& proving_inputs(ready, name, degree, seed) == Ok::<ProvingInputsView, ErrorView>(
                ProvingInputsView {
                    params: parameter_bytes(degree),
                    proving_key: keys.proving_key,
                    seed,
                },
            )
            &&& verification_inputs(proved, name, degree) == Ok::<
                VerificationInputsView,
                ErrorView,
            >(
                VerificationInputsView {
                    params: parameter_bytes(degree),
                    verifier_params: verifier_projection(parameter_bytes(degree)),
                    verifying_key: keys.verifying_key,
                    proof,
                },
            )
            &&& verification_effect(proved, name, degree, verdict) == verdict
        }),
{
}

/// Verification never accepts on its own: it accepts only where every
/// artifact loaded and the engine accepted, and where the artifacts load it
/// returns the engine's verdict as it came.
pub proof fn lemma_verification_returns_the_engines_verdict(
    store: Map<ArtifactId, Seq<u8>>,
    name: Seq<char>,
    degree: u32,
    verdict: Result<(), ErrorView>,
)
    ensures
        verification_effect(store, name, degree, verdict) is Ok ==> verdict is Ok
            && verification_inputs(store, name, degree) is Ok,
        verification_inputs(store, name, degree) is Ok ==> verification_effect(
            store,
            name,
            degree,
            verdict,
        ) == verdict,
{
}

/// Proving without a proving key in the store fails for a missing artifact
/// and writes nothing, whatever the engine would have answered. This is the
/// case before any setup of the family. Parameters that are cached but do
/// not decode are reported as corrupt instead, so they are left out.
pub proof fn lemma_proving_before_setup_reports_missing(
    store: Map<ArtifactId, Seq<u8>>,
    name: Seq<char>,
    degree: u32,
    seed: Seq<u8>,
    produced: Result<Seq<u8>, ErrorView>,
)
    requires
        !store.contains_key(ArtifactId::for_proving_key(name)),
        !(cached_parameters(store, degree, false) matches Err(ErrorView::Corrupt(_))),
    ensures
        ({
            let (after, outcome) = local_proving_effect(store, name, degree, seed, produced);
            &&& after == store
            &&& outcome matches Err(ErrorView::MissingArtifact(_))
        }),
{
}

/// A failed proving call writes nothing, and a proving call that wrote
/// wrote the proof the engine returned, under the family's name.
pub proof fn lemma_proving_writes_only_on_success(
    store: Map<ArtifactId, Seq<u8>>,
    name: Seq<char>,
    degree: u32,
    seed: Seq<u8>,
    produced: Result<Seq<u8>, ErrorView>,
)
    ensures
        ({
            let (after, outcome) = local_proving_effect(store, name, degree, seed, produced);
            &&& outcome is Err ==> after == store
            &&& outcome is Ok ==> produced is Ok && after == store.insert(
                ArtifactId::for_proof(name),
                produced->Ok_0,
            )
        }),
{
}

/// Only a leader finalizes, and only a finalizing session stores a proof.
pub proof fn lemma_only_the_leader_finalizes(role: Role, state: SessionState, event: SessionEvent)
    ensures
        transition(role, state, event) == Some(SessionState::Finalizing) ==> role == Role::Leader,
        transition(role, state, SessionEvent::ProofStored) is Some ==> state
            == SessionState::Finalizing,
{
}

/// A session that is done or has failed goes nowhere.
pub proof fn lemma_ended_sessions_stay_ended(role: Role, state: SessionState, event: SessionEvent)
    requires
        state == SessionState::Done || state == SessionState::Failed,
    ensures
        transition(role, state, event) is None,
{
}

/// A prover that is not the leader leaves the store as it found it, whether
/// its artifacts load or not and whatever the engine answers.
pub proof fn lemma_followers_never_write(
    store: Map<ArtifactId, Seq<u8>>,
    name: Seq<char>,
    degree: u32,
    seed: Seq<u8>,
    prover_index: usize,
    computed: Result<Seq<u8>, ErrorView>,
)
    requires
        prover_index != 0,
    ensures
        distributed_proving_effect(store, name, degree, seed, prover_index, computed).0 == store,
{
}

/// What the engine answered one prover of a run.
pub struct Completion {
    pub prover_index: usize,
    pub computed: Result<Seq<u8>, ErrorView>,
}

/// The store after the provers of a run have ended, in the order given.
pub open spec fn cohort_settled(
    store: Map<ArtifactId, Seq<u8>>,
    name: Seq<char>,
    completions: Seq<Completion>,
) -> Map<ArtifactId, Seq<u8>>
    decreases completions.len(),
{
    if completions.len() == 0 {
        store
    } else {
        let last = completions.last();
        session_settled(
            cohort_settled(store, name, completions.drop_last()),
            name,
            Role::of_index(last.prover_index),
            last.computed,
        ).0
    }
}

/// In a run of any size with one leader, in whatever order the provers end,
/// the store ends as if the leader had run alone: it holds the leader's
/// proof where the leader succeeded and is untouched where it failed.
pub proof fn lemma_leader_is_the_sole_writer(
    store: Map<ArtifactId, Seq<u8>>,
    name: Seq<char>,
    completions: Seq<Completion>,
    leader: int,
)
    requires
        0 <= leader < completions.len(),
        completions[leader].prover_index == 0,
        forall|i: int|
            0 <= i < completions.len() && i != leader ==> completions[i].prover_index != 0,
    ensures
        cohort_settled(store, name, completions) == session_settled(
            store,
            name,
            Role::Leader,
            completions[leader].computed,
        ).0,
    decreases completions.len(),
{
    let earlier = completions.drop_last();
    if leader == completions.len() - 1 {
        lemma_cohort_without_leader(store, name, earlier);
    } else {
        lemma_leader_is_the_sole_writer(store, name, earlier, leader);
    }
}

/// A run without a leader leaves the store untouched.
pub proof fn lemma_cohort_without_leader(
    store: Map<ArtifactId, Seq<u8>>,
    name: Seq<char>,
    completions: Seq<Completion>,
)
    requires
        forall|i: int| 0 <= i < completions.len() ==> completions[i].prover_index != 0,
    ensures
        cohort_settled(store, name, completions) == store,
    decreases completions.len(),
{
    if completions.len() > 0 {
        lemma_cohort_without_leader(store, name, completions.drop_last());
    }
}

} // verus!

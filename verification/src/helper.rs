//! The workflow of one circuit family: setup, proving and verification over
//! an artifact store, written once against what a family has to supply.

use vstd::prelude::*;

use crate::artifact::{stored, ArtifactId, ArtifactKey, ArtifactStore};
use crate::coordinator::{distributed_proving_effect, settle_session, Session, SessionEvent};
use crate::error::{outcome_view, Error, ErrorView};
use crate::family::{KeyPair, NetworkConfig, WorkloadConfig};
use crate::parameters::{cached_parameters, derive_parameters, derived_parameters};
use crate::proving::{
    load_proving_inputs, local_proving_effect, proving_inputs, record_proof, ProvingInputs,
};
use crate::setup::{complete_setup, setup_effect, setup_needed, setup_required, SetupOutcome};
use crate::verification::{load_verification_inputs, verification_inputs, VerificationInputs};

verus! {

/// A circuit family and its workflow.
///
/// A family supplies its name, its degree, the seed of its randomness, and
/// the engine calls that need its circuit. Those calls are the family's own:
/// nothing is assumed of what they return, and the provided methods say what
/// holds whatever they return.
pub trait CircuitHelper: Sized {
    /// The name under which the family's keys and proof are cached.
    const NAME: &'static str;

    /// The power-of-two exponent that bounds the circuit's size.
    const DEGREE: u32;

    /// The seed of the randomness used in proving.
    const RNG_SEED: [u8; 16];

    /// Generates a verifying key from the parameters and the family's
    /// circuit, and a proving key from that same verifying key.
    fn keygen(params: &Vec<u8>) -> Result<KeyPair, Error>;

    /// Computes a proof for a fresh instance of the family's circuit in this
    /// process alone, and returns the finished transcript.
    fn create_proof(inputs: &ProvingInputs) -> Result<Vec<u8>, Error>;

    /// Computes a proof together with the other provers of the run. The call
    /// returns when the run has ended for the whole cohort. The transcript it
    /// returns means something for the leader only.
    fn create_proof_distributed(
        inputs: &ProvingInputs,
        network: &NetworkConfig,
        workload: &WorkloadConfig,
        prover_index: usize,
    ) -> Result<Vec<u8>, Error>;

    /// Checks a proof against the empty set of public inputs.
    fn verify_proof(inputs: &VerificationInputs) -> Result<(), Error>;

    /// Describes the constraint system that an encoded verifying key holds.
    fn constraint_system_from_vk_bytes(vk_bytes: &Vec<u8>) -> Result<String, Error>;

    /// The family's cached verifying key.
    fn vk_bytes(store: &ArtifactStore) -> (found: Result<Vec<u8>, Error>)
        ensures
            outcome_view(found) == stored(store@, ArtifactId::for_verifying_key(Self::NAME@)),
    {
        store.read(&ArtifactKey::for_verifying_key(Self::NAME))
    }

    /// The description of the constraint system of the family's cached
    /// verifying key: what the family's decoder makes of the cached bytes.
    /// The decoder is not asked where the key is missing.
    fn constraint_system(store: &ArtifactStore) -> (described: Result<String, Error>)
        ensures
            match stored(store@, ArtifactId::for_verifying_key(Self::NAME@)) {
                Err(error) => outcome_view(described) == Err::<Seq<char>, ErrorView>(error),
                Ok(cached) => (exists|bytes: Vec<u8>|
                    bytes@ == cached && #[trigger] call_ensures(
                        Self::constraint_system_from_vk_bytes,
                        (&bytes,),
                        described,
                    )),
            },
    {
        match Self::vk_bytes(store) {
            Ok(bytes) => Self::constraint_system_from_vk_bytes(&bytes),
            Err(error) => Err(error),
        }
    }

    /// Whether any of the family's four artifacts is missing from the store.
    fn setup_required(store: &ArtifactStore) -> (needed: bool)
        ensures
            needed == setup_needed(store@, Self::NAME@, Self::DEGREE),
    {
        setup_required(store, Self::NAME, Self::DEGREE)
    }

    /// Generates and caches the family's parameters and key pair, unless all
    /// four artifacts are cached already: then nothing is written. Key
    /// generation is asked at most once, and a failure of it is handed on as
    /// it came, with nothing written. After a call that succeeded setup is
    /// no longer required, and parameters that the call generated load.
    fn setup(store: &mut ArtifactStore) -> (outcome: Result<SetupOutcome, Error>)
        ensures
            !setup_needed(old(store)@, Self::NAME@, Self::DEGREE) ==> final(store)@ == old(store)@
                && outcome == Ok::<SetupOutcome, Error>(SetupOutcome::Cached),
            setup_needed(old(store)@, Self::NAME@, Self::DEGREE) ==> match derived_parameters(
                Self::DEGREE,
            ) {
                Err(error) => final(store)@ == old(store)@ && outcome_view(outcome) == Err::<
                    SetupOutcome,
                    ErrorView,
                >(error),
                Ok(derived) => (exists|params: Vec<u8>, generated: Result<KeyPair, Error>|
                    {
                        &&& params@ == derived
                        &&& #[trigger] call_ensures(Self::keygen, (&params,), generated)
                        &&& (final(store)@, outcome_view(outcome)) == setup_effect(
                            old(store)@,
                            Self::NAME@,
                            Self::DEGREE,
                            outcome_view(generated),
                        )
                        &&& generated matches Err(error) ==> outcome == Err::<SetupOutcome, Error>(
                            error,
                        )
                    }),
            },
            outcome is Ok ==> !setup_needed(final(store)@, Self::NAME@, Self::DEGREE),
            outcome == Ok::<SetupOutcome, Error>(SetupOutcome::Generated) ==> cached_parameters(
                final(store)@,
                Self::DEGREE,
                false,
            ) is Ok && cached_parameters(final(store)@, Self::DEGREE, true) is Ok,
    {
        if !Self::setup_required(store) {
            return Ok(SetupOutcome::Cached);
        }
        let params = match derive_parameters(Self::DEGREE) {
            Ok(params) => params,
            Err(error) => {
                return Err(error);
            },
        };
        let generated = Self::keygen(&params);
        complete_setup(store, Self::NAME, Self::DEGREE, params, generated)
    }

    /// Computes a proof in this process and stores it under the family's
    /// name, over any earlier proof. Nothing is written unless the engine
    /// returned a proof.
    fn prove_local(store: &mut ArtifactStore) -> (outcome: Result<(), Error>)
        ensures
            match proving_inputs(old(store)@, Self::NAME@, Self::DEGREE, Self::RNG_SEED@) {
                Err(error) => final(store)@ == old(store)@ && outcome_view(outcome) == Err::<
                    (),
                    ErrorView,
                >(error),
                Ok(loaded) => (exists|inputs: ProvingInputs, produced: Result<Vec<u8>, Error>|
                    {
                        &&& inputs@ == loaded
                        &&& #[trigger] call_ensures(Self::create_proof, (&inputs,), produced)
                        &&& (final(store)@, outcome_view(outcome)) == local_proving_effect(
                            old(store)@,
                            Self::NAME@,
                            Self::DEGREE,
                            Self::RNG_SEED@,
                            outcome_view(produced),
                        )
                        &&& produced matches Err(error) ==> outcome == Err::<(), Error>(error)
                    }),
            },
    {
        let inputs = match load_proving_inputs(store, Self::NAME, Self::DEGREE, Self::RNG_SEED) {
            Ok(inputs) => inputs,
            Err(error) => {
                return Err(error);
            },
        };
        let produced = Self::create_proof(&inputs);
        record_proof(store, Self::NAME, produced)
    }

    /// Takes part in a distributed proving run as the prover with the given
    /// index. The leader, index zero, stores the proof under the family's
    /// name; every other prover leaves the store as it was. Nothing is
    /// written unless the engine succeeded.
    fn prove(
        store: &mut ArtifactStore,
        prover_index: usize,
        network: &NetworkConfig,
        workload: &WorkloadConfig,
    ) -> (outcome: Result<(), Error>)
        ensures
            match proving_inputs(old(store)@, Self::NAME@, Self::DEGREE, Self::RNG_SEED@) {
                Err(error) => final(store)@ == old(store)@ && outcome_view(outcome) == Err::<
                    (),
                    ErrorView,
                >(error),
                Ok(loaded) => (exists|inputs: ProvingInputs, computed: Result<Vec<u8>, Error>|
                    {
                        &&& inputs@ == loaded
                        &&& #[trigger] call_ensures(
                            Self::create_proof_distributed,
                            (&inputs, network, workload, prover_index),
                            computed,
                        )
                        &&& (final(store)@, outcome_view(outcome)) == distributed_proving_effect(
                            old(store)@,
                            Self::NAME@,
                            Self::DEGREE,
                            Self::RNG_SEED@,
                            prover_index,
                            outcome_view(computed),
                        )
                        &&& computed matches Err(error) ==> outcome == Err::<(), Error>(error)
                    }),
            },
            prover_index != 0 ==> final(store)@ == old(store)@,
    {
        let inputs = match load_proving_inputs(store, Self::NAME, Self::DEGREE, Self::RNG_SEED) {
            Ok(inputs) => inputs,
            Err(error) => {
                return Err(error);
            },
        };
        let mut session = Session::open(prover_index);
        session.advance(SessionEvent::EngineInvoked);
        let computed = Self::create_proof_distributed(&inputs, network, workload, prover_index);
        settle_session(&mut session, store, Self::NAME, computed)
    }

    /// Checks the family's stored proof against its stored parameters and
    /// verifying key, and returns the engine's verdict as it came.
    fn verify(store: &ArtifactStore) -> (verdict: Result<(), Error>)
        ensures
            match verification_inputs(store@, Self::NAME@, Self::DEGREE) {
                Err(error) => outcome_view(verdict) == Err::<(), ErrorView>(error),
                Ok(loaded) => (exists|inputs: VerificationInputs|
                    inputs@ == loaded && #[trigger] call_ensures(
                        Self::verify_proof,
                        (&inputs,),
                        verdict,
                    )),
            },
    {
        let inputs = match load_verification_inputs(store, Self::NAME, Self::DEGREE) {
            Ok(inputs) => inputs,
            Err(error) => {
                return Err(error);
            },
        };
        Self::verify_proof(&inputs)
    }
}

} // verus!

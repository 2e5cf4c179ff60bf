//! Verification: the stored proof is checked against the stored parameters
//! and verifying key, and the engine's verdict is the answer.

use vstd::prelude::*;

use crate::artifact::{ArtifactId, ArtifactKey, ArtifactStore};
use crate::error::{outcome_view, Error, ErrorView};
use crate::parameters::{cached_parameters, load_parameters};

verus! {

/// What the engine needs to check a proof. The public inputs are not among
/// them: the workflow always verifies against the empty set.
#[derive(Debug, PartialEq, Eq)]
pub struct VerificationInputs {
    pub params: Vec<u8>,
    pub verifier_params: Vec<u8>,
    pub verifying_key: Vec<u8>,
    pub proof: Vec<u8>,
}

/// The mathematical content of [`VerificationInputs`].
pub struct VerificationInputsView {
    pub params: Seq<u8>,
    pub verifier_params: Seq<u8>,
    pub verifying_key: Seq<u8>,
    pub proof: Seq<u8>,
}

impl View for VerificationInputs {
    type V = VerificationInputsView;

    open spec fn view(&self) -> VerificationInputsView {
        VerificationInputsView {
            params: self.params@,
            verifier_params: self.verifier_params@,
            verifying_key: self.verifying_key@,
            proof: self.proof@,
        }
    }
}

/// What loading the verification inputs of a family gives on a store: the
/// prover's parameters, the verifier's, the verifying key and the proof, in
/// that order, and the first failure met.
pub open spec fn verification_inputs(
    store: Map<ArtifactId, Seq<u8>>,
    name: Seq<char>,
    degree: u32,
) -> Result<VerificationInputsView, ErrorView> {
    let key_id = ArtifactId::for_verifying_key(name);
    let proof_id = ArtifactId::for_proof(name);
    match cached_parameters(store, degree, false) {
        Err(error) => Err(error),
        Ok(params) => match cached_parameters(store, degree, true) {
            Err(error) => Err(error),
            Ok(verifier_params) => if !store.contains_key(key_id) {
                Err(ErrorView::MissingArtifact(key_id))
            } else if !store.contains_key(proof_id) {
                Err(ErrorView::MissingArtifact(proof_id))
            } else {
                Ok(
                    VerificationInputsView {
                        params,
                        verifier_params,
                        verifying_key: store[key_id],
                        proof: store[proof_id],
                    },
                )
            },
        },
    }
}

/// What a verification call returns, given the engine's verdict when it is
/// asked: the verdict itself. The engine is asked only where the
/// verification inputs load.
pub open spec fn verification_effect(
    store: Map<ArtifactId, Seq<u8>>,
    name: Seq<char>,
    degree: u32,
    verdict: Result<(), ErrorView>,
) -> Result<(), ErrorView> {
    match verification_inputs(store, name, degree) {
        Err(error) => Err(error),
        Ok(_) => verdict,
    }
}

/// Loads what the engine needs to check the stored proof of a family.
pub fn load_verification_inputs(
    store: &ArtifactStore,
    name: &str,
    degree: u32,
) -> (loaded: Result<VerificationInputs, Error>)
    ensures
        outcome_view(loaded) == verification_inputs(store@, name@, degree),
{
    let params = match load_parameters(store, degree, false) {
        Ok(params) => params,
        Err(error) => { return Err(error); },
    };
    let verifier_params = match load_parameters(store, degree, true) {
        Ok(params) => params,
        Err(error) => { return Err(error); },
    };
    let verifying_key = match store.read(&ArtifactKey::for_verifying_key(name)) {
        Ok(key) => key,
        Err(error) => { return Err(error); },
    };
    match store.read(&ArtifactKey::for_proof(name)) {
        Ok(proof) => Ok(VerificationInputs { params, verifier_params, verifying_key, proof }),
        Err(error) => Err(error),
    }
}

} // verus!

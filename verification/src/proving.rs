//! Local proving: one process computes the proof from the cached parameters
//! and proving key, and stores it.

use vstd::prelude::*;

use crate::artifact::{ArtifactId, ArtifactKey, ArtifactStore};
use crate::error::{outcome_view, Error, ErrorView};
use crate::parameters::{cached_parameters, load_parameters};

verus! {

/// What the engine needs to compute a proof, besides the circuit instance:
/// the prover's parameters, the proving key, and the seed of its randomness.
#[derive(Debug, PartialEq, Eq)]
pub struct ProvingInputs {
    pub params: Vec<u8>,
    pub proving_key: Vec<u8>,
    pub seed: [u8; 16],
}

/// The mathematical content of [`ProvingInputs`].
pub struct ProvingInputsView {
    pub params: Seq<u8>,
    pub proving_key: Seq<u8>,
    pub seed: Seq<u8>,
}

impl View for ProvingInputs {
    type V = ProvingInputsView;

    open spec fn view(&self) -> ProvingInputsView {
        ProvingInputsView {
            params: self.params@,
            proving_key: self.proving_key@,
            seed: self.seed@,
        }
    }
}

/// What loading the proving inputs of a family gives on a store: the
/// parameters first, then the proving key, and the first failure met.
pub open spec fn proving_inputs(
    store: Map<ArtifactId, Seq<u8>>,
    name: Seq<char>,
    degree: u32,
    seed: Seq<u8>,
) -> Result<ProvingInputsView, ErrorView> {
    let key_id = ArtifactId::for_proving_key(name);
    match cached_parameters(store, degree, false) {
        Err(error) => Err(error),
        Ok(params) => if store.contains_key(key_id) {
            Ok(ProvingInputsView { params, proving_key: store[key_id], seed })
        } else {
            Err(ErrorView::MissingArtifact(key_id))
        },
    }
}

/// The store and the result after the engine answered a proving request: a
/// proof replaces the family's stored proof, a failure leaves the store as
/// it was.
pub open spec fn proof_recorded(
    store: Map<ArtifactId, Seq<u8>>,
    name: Seq<char>,
    produced: Result<Seq<u8>, ErrorView>,
) -> (Map<ArtifactId, Seq<u8>>, Result<(), ErrorView>) {
    match produced {
        Ok(proof) => (store.insert(ArtifactId::for_proof(name), proof), Ok(())),
        Err(error) => (store, Err(error)),
    }
}

/// What a local proving call does to a store and returns, given what the
/// engine answers when it is asked. The engine is asked only where the
/// proving inputs load.
pub open spec fn local_proving_effect(
    store: Map<ArtifactId, Seq<u8>>,
    name: Seq<char>,
    degree: u32,
    seed: Seq<u8>,
    produced: Result<Seq<u8>, ErrorView>,
) -> (Map<ArtifactId, Seq<u8>>, Result<(), ErrorView>) {
    match proving_inputs(store, name, degree, seed) {
        Err(error) => (store, Err(error)),
        Ok(_) => proof_recorded(store, name, produced),
    }
}

/// Loads what the engine needs to prove for a family.
pub fn load_proving_inputs(
    store: &ArtifactStore,
    name: &str,
    degree: u32,
    seed: [u8; 16],
) -> (loaded: Result<ProvingInputs, Error>)
    ensures
        outcome_view(loaded) == proving_inputs(store@, name@, degree, seed@),
{
    match load_parameters(store, degree, false) {
        Ok(params) => match store.read(&ArtifactKey::for_proving_key(name)) {
            Ok(proving_key) => Ok(ProvingInputs { params, proving_key, seed }),
            Err(error) => Err(error),
        },
        Err(error) => Err(error),
    }
}

/// Ends a proving call once the engine has answered: a proof is stored under
/// the family's name over any earlier proof, and a failure is handed on as
/// it came, with nothing written.
pub fn record_proof(
    store: &mut ArtifactStore,
    name: &str,
    produced: Result<Vec<u8>, Error>,
) -> (outcome: Result<(), Error>)
    ensures
        (final(store)@, outcome_view(outcome)) == proof_recorded(
            old(store)@,
            name@,
            outcome_view(produced),
        ),
        produced matches Err(error) ==> outcome == Err::<(), Error>(error),
{
    match produced {
        Ok(proof) => {
            store.write(ArtifactKey::for_proof(name), proof);
            Ok(())
        },
        Err(error) => Err(error),
    }
}

} // verus!

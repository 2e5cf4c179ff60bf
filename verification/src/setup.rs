//! Setup: parameters and a key pair for one circuit family, generated once
//! and cached.

use vstd::prelude::*;

use crate::artifact::{ArtifactId, ArtifactKey, ArtifactStore};
use crate::error::{outcome_view, Error, ErrorView};
use crate::family::{KeyPair, KeyPairView};
use crate::parameters::{derived_parameters, project_verifier_parameters, verifier_projection};

verus! {

/// How a setup call ended when it did not fail.
#[derive(Clone, Copy, Debug, PartialEq, Eq, Structural)]
pub enum SetupOutcome {
    /// Every artifact was cached already; nothing was written.
    Cached,
    /// The four artifacts were generated and written.
    Generated,
}

impl View for SetupOutcome {
    type V = SetupOutcome;

    open spec fn view(&self) -> SetupOutcome {
        *self
    }
}

/// Setup is needed when any of the four artifacts of the family is missing.
pub open spec fn setup_needed(
    store: Map<ArtifactId, Seq<u8>>,
    name: Seq<char>,
    degree: u32,
) -> bool {
    ||| !store.contains_key(ArtifactId::for_parameters(degree, false))
    ||| !store.contains_key(ArtifactId::for_parameters(degree, true))
    ||| !store.contains_key(ArtifactId::for_verifying_key(name))
    ||| !store.contains_key(ArtifactId::for_proving_key(name))
}

/// The store after the four artifacts of a family were written.
pub open spec fn installed(
    store: Map<ArtifactId, Seq<u8>>,
    name: Seq<char>,
    degree: u32,
    params: Seq<u8>,
    keys: KeyPairView,
) -> Map<ArtifactId, Seq<u8>> {
    store.insert(ArtifactId::for_parameters(degree, false), params).insert(
        ArtifactId::for_parameters(degree, true),
        verifier_projection(params),
    ).insert(ArtifactId::for_verifying_key(name), keys.verifying_key).insert(
        ArtifactId::for_proving_key(name),
        keys.proving_key,
    )
}

/// The store and the result after key generation answered a setup that had
/// derived `params`: a key pair is written together with the parameters, a
/// failure leaves the store as it was.
pub open spec fn setup_completed(
    store: Map<ArtifactId, Seq<u8>>,
    name: Seq<char>,
    degree: u32,
    params: Seq<u8>,
    generated: Result<KeyPairView, ErrorView>,
) -> (Map<ArtifactId, Seq<u8>>, Result<SetupOutcome, ErrorView>) {
    match generated {
        Ok(keys) => (installed(store, name, degree, params, keys), Ok(SetupOutcome::Generated)),
        Err(error) => (store, Err(error)),
    }
}

/// What a setup call does to a store and returns, given what key generation
/// answers when it is asked. Key generation is asked only where setup is
/// needed and the engine supports the degree.
pub open spec fn setup_effect(
    store: Map<ArtifactId, Seq<u8>>,
    name: Seq<char>,
    degree: u32,
    generated: Result<KeyPairView, ErrorView>,
) -> (Map<ArtifactId, Seq<u8>>, Result<SetupOutcome, ErrorView>) {
    if !setup_needed(store, name, degree) {
        (store, Ok(SetupOutcome::Cached))
    } else {
        match derived_parameters(degree) {
            Ok(params) => setup_completed(store, name, degree, params, generated),
            Err(error) => (store, Err(error)),
        }
    }
}

/// Whether any of the four artifacts of the family is missing from the store.
pub fn setup_required(store: &ArtifactStore, name: &str, degree: u32) -> (needed: bool)
    ensures
        needed == setup_needed(store@, name@, degree),
{
    !store.contains(&ArtifactKey::for_parameters(degree, false)) || !store.contains(
        &ArtifactKey::for_parameters(degree, true),
    ) || !store.contains(&ArtifactKey::for_verifying_key(name)) || !store.contains(
        &ArtifactKey::for_proving_key(name),
    )
}

/// Writes the four artifacts of a family: the prover's parameters, the
/// verifier's projection of them, and the two keys.
pub fn install(store: &mut ArtifactStore, name: &str, degree: u32, params: Vec<u8>, keys: KeyPair)
    ensures
        final(store)@ == installed(old(store)@, name@, degree, params@, keys@),
{
    let verifier_params = project_verifier_parameters(&params);
    store.write(ArtifactKey::for_parameters(degree, false), params);
    store.write(ArtifactKey::for_parameters(degree, true), verifier_params);
    store.write(ArtifactKey::for_verifying_key(name), keys.verifying_key);
    store.write(ArtifactKey::for_proving_key(name), keys.proving_key);
}

/// Ends a setup once key generation has answered: a key pair is written
/// together with the parameters it was generated from, and a failure is
/// handed on as it came, with nothing written.
pub fn complete_setup(
    store: &mut ArtifactStore,
    name: &str,
    degree: u32,
    params: Vec<u8>,
    generated: Result<KeyPair, Error>,
) -> (outcome: Result<SetupOutcome, Error>)
    ensures
        (final(store)@, outcome_view(outcome)) == setup_completed(
            old(store)@,
            name@,
            degree,
            params@,
            outcome_view(generated),
        ),
        generated matches Err(error) ==> outcome == Err::<SetupOutcome, Error>(error),
{
    match generated {
        Ok(keys) => {
            install(store, name, degree, params, keys);
            Ok(SetupOutcome::Generated)
        },
        Err(error) => Err(error),
    }
}

} // verus!

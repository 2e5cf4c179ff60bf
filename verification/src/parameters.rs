//! Public parameters: deriving them, projecting the verifier's variant, and
//! reading them back out of the cache.

use vstd::prelude::*;

use crate::artifact::{ArtifactId, ArtifactKey, ArtifactStore};
use crate::engine::{
    declared_degree, decode_parameters, generate_parameters, parameter_bytes, parameters_decode,
    DEGREE_LIMIT,
};
use crate::error::{outcome_view, Error, ErrorView};

verus! {

/// Whether `bytes` are usable parameters of `degree`: they declare that
/// degree, the engine supports it, and the engine's decoder accepts them.
pub open spec fn parameters_valid(bytes: Seq<u8>, degree: u32) -> bool {
    &&& degree < DEGREE_LIMIT
    &&& declared_degree(bytes) == Some(degree)
    &&& parameters_decode(bytes)
}

/// The verifier's parameters are a projection of the prover's that draws no
/// new randomness; with this engine the projection keeps every byte.
pub open spec fn verifier_projection(params: Seq<u8>) -> Seq<u8> {
    params
}

/// What deriving the parameters of `degree` gives: the engine's parameters
/// of that degree, or the report that the engine supports no such degree.
pub open spec fn derived_parameters(degree: u32) -> Result<Seq<u8>, ErrorView> {
    if degree < DEGREE_LIMIT {
        Ok(parameter_bytes(degree))
    } else {
        Err(ErrorView::EngineFailure("the degree is beyond what the engine supports"@))
    }
}

/// What reading the parameters of `degree`, in one variant, gives on a store.
pub open spec fn cached_parameters(
    store: Map<ArtifactId, Seq<u8>>,
    degree: u32,
    verifier: bool,
) -> Result<Seq<u8>, ErrorView> {
    let id = ArtifactId::for_parameters(degree, verifier);
    if !store.contains_key(id) {
        Err(ErrorView::MissingArtifact(id))
    } else if !parameters_valid(store[id], degree) {
        Err(ErrorView::Corrupt(id))
    } else {
        Ok(store[id])
    }
}

/// The degree that the encoding declares, if it is long enough to declare one.
pub fn read_declared_degree(bytes: &Vec<u8>) -> (declared: Option<u32>)
    ensures
        declared == declared_degree(bytes@),
{
    if bytes.len() < 4 {
        None
    } else {
        let low: u32 = bytes[0] as u32 + 256 * (bytes[1] as u32);
        let high: u32 = bytes[2] as u32 + 256 * (bytes[3] as u32);
        Some(low + 65536 * high)
    }
}

/// Whether `bytes` are usable parameters of `degree`.
pub fn check_parameters(bytes: &Vec<u8>, degree: u32) -> (valid: bool)
    ensures
        valid == parameters_valid(bytes@, degree),
{
    if degree >= DEGREE_LIMIT {
        return false;
    }
    match read_declared_degree(bytes) {
        Some(declared) => declared == degree && decode_parameters(bytes),
        None => false,
    }
}

/// Derives the prover's parameters of `degree`. They are a function of the
/// degree alone, and they are valid parameters of it. A degree the engine
/// does not support is an engine failure.
pub fn derive_parameters(degree: u32) -> (derived: Result<Vec<u8>, Error>)
    ensures
        outcome_view(derived) == derived_parameters(degree),
        derived matches Ok(params) ==> parameters_valid(params@, degree),
{
    if degree < DEGREE_LIMIT {
        Ok(generate_parameters(degree))
    } else {
        Err(Error::EngineFailure("the degree is beyond what the engine supports".to_owned()))
    }
}

/// Projects the verifier's parameters out of the prover's.
pub fn project_verifier_parameters(params: &Vec<u8>) -> (projected: Vec<u8>)
    ensures
        projected@ == verifier_projection(params@),
{
    params.clone()
}

/// Reads the parameters of `degree`, in one variant, and checks them.
pub fn load_parameters(
    store: &ArtifactStore,
    degree: u32,
    verifier: bool,
) -> (loaded: Result<Vec<u8>, Error>)
    ensures
        outcome_view(loaded) == cached_parameters(store@, degree, verifier),
{
    let key = ArtifactKey::for_parameters(degree, verifier);
    match store.read(&key) {
        Ok(params) => {
            if check_parameters(&params, degree) {
                Ok(params)
            } else {
                Err(Error::Corrupt(key))
            }
        },
        Err(error) => Err(error),
    }
}

} // verus!

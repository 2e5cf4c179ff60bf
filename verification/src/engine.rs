//! The calls into the proof engine that need no circuit. Their contracts are
//! taken on trust from the engine's source; nothing here is proved.

use halo2_proofs::pasta::EqAffine;
use halo2_proofs::poly::commitment::Params;
use vstd::prelude::*;

verus! {

/// The engine generates parameters for degrees below this bound only.
pub const DEGREE_LIMIT: u32 = 32;

/// The degree that a parameter encoding declares in its first four bytes,
/// least significant byte first; nothing where the bytes are too few.
pub open spec fn declared_degree(bytes: Seq<u8>) -> Option<u32> {
    if bytes.len() < 4 {
        None
    } else {
        Some((bytes[0] + 256 * bytes[1] + 65536 * bytes[2] + 16777216 * bytes[3]) as u32)
    }
}

/// The engine's encoding of the public parameters of a degree.
pub uninterp spec fn parameter_bytes(degree: u32) -> Seq<u8>;

/// Whether the engine's decoder accepts a parameter encoding.
pub uninterp spec fn parameters_decode(bytes: Seq<u8>) -> bool;

/// `Params::<EqAffine>::new` followed by `Params::write` into a fresh buffer.
/// The engine draws the parameters from a hash of fixed inputs, so the bytes
/// depend on the degree alone. The encoding opens with the degree as four
/// little-endian bytes, and the engine's decoder reads back what its encoder
/// wrote. The engine refuses degrees from `DEGREE_LIMIT` on by panicking;
/// below it, it takes time and memory in proportion to two to the degree.
#[verifier::external_body]
pub(crate) fn generate_parameters(degree: u32) -> (bytes: Vec<u8>)
    requires
        degree < DEGREE_LIMIT,
    ensures
        bytes@ == parameter_bytes(degree),
        declared_degree(bytes@) == Some(degree),
        parameters_decode(bytes@),
{
    let params = Params::<EqAffine>::new(degree);
    let mut bytes: Vec<u8> = Vec::new();
    let _ = params.write(&mut bytes);
    bytes
}

/// `Params::<EqAffine>::read` on the bytes, keeping only whether it
/// succeeded. The decoder shifts by the declared degree, which must stay
/// below the width of the word it shifts.
#[verifier::external_body]
pub(crate) fn decode_parameters(bytes: &Vec<u8>) -> (accepted: bool)
    requires
        declared_degree(bytes@) matches Some(degree) && degree < DEGREE_LIMIT,
    ensures
        accepted == parameters_decode(bytes@),
{
    Params::<EqAffine>::read(&mut &bytes[..]).is_ok()
}

} // verus!

//! The plain values that describe a circuit family and pass between the
//! workflow and the proof engine.

use vstd::prelude::*;

verus! {

/// The part a cooperating prover plays in a distributed proving run. The
/// prover with index zero leads: it alone assembles and stores the proof.
#[derive(Clone, Copy, Debug, PartialEq, Eq, Structural)]
pub enum Role {
    Leader,
    Follower,
}

impl Role {
    /// The role that goes with a zero-based prover index.
    pub open spec fn of_index(prover_index: usize) -> Role {
        if prover_index == 0 {
            Role::Leader
        } else {
            Role::Follower
        }
    }

    /// The role of the prover with the given zero-based index.
    pub fn from_index(prover_index: usize) -> (role: Role)
        ensures
            role == Role::of_index(prover_index),
    {
        if prover_index == 0 {
            Role::Leader
        } else {
            Role::Follower
        }
    }

    /// Whether this role stores the proof of a distributed run.
    pub fn is_leader(&self) -> (leads: bool)
        ensures
            leads == (*self == Role::Leader),
    {
        match self {
            Role::Leader => true,
            Role::Follower => false,
        }
    }
}

/// A verifying key and the proving key generated with it, both encoded.
/// The pair fits the one constraint system it was derived from.
#[derive(Debug, PartialEq, Eq)]
pub struct KeyPair {
    pub verifying_key: Vec<u8>,
    pub proving_key: Vec<u8>,
}

/// The mathematical content of a [`KeyPair`].
pub struct KeyPairView {
    pub verifying_key: Seq<u8>,
    pub proving_key: Seq<u8>,
}

impl View for KeyPair {
    type V = KeyPairView;

    open spec fn view(&self) -> KeyPairView {
        KeyPairView { verifying_key: self.verifying_key@, proving_key: self.proving_key@ }
    }
}

/// How the provers of a distributed run reach each other. The workflow
/// hands it to the engine as it is.
#[derive(Debug, PartialEq, Eq)]
pub struct NetworkConfig {
    pub bytes: Vec<u8>,
}

/// How the proving work is divided among the provers of a distributed run.
/// The workflow hands it to the engine as it is.
#[derive(Debug, PartialEq, Eq)]
pub struct WorkloadConfig {
    pub bytes: Vec<u8>,
}

} // verus!

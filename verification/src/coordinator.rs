//! Distributed proving: several cooperating processes compute one proof,
//! and the leader alone stores it.

use vstd::prelude::*;

use crate::artifact::{ArtifactId, ArtifactKey, ArtifactStore};
use crate::error::{outcome_view, Error, ErrorView};
use crate::family::Role;
use crate::proving::proving_inputs;

verus! {

/// Where a participant stands in a distributed proving session.
#[derive(Clone, Copy, Debug, PartialEq, Eq, Structural)]
pub enum SessionState {
    /// The artifacts and the configuration are loaded.
    Initialized,
    /// The engine is computing with the cohort.
    Computing,
    /// The leader assembles the proof and stores it.
    Finalizing,
    /// The session ended well.
    Done,
    /// The engine failed; nothing was stored.
    Failed,
}

/// What can happen to a participant in a session.
#[derive(Clone, Copy, Debug, PartialEq, Eq, Structural)]
pub enum SessionEvent {
    EngineInvoked,
    EngineSucceeded,
    EngineFailed,
    ProofStored,
}

/// The state that follows an event, or nothing where the event cannot
/// happen in the state. Only a leader passes through `Finalizing`; a
/// follower is done as soon as the engine succeeds.
pub open spec fn transition(role: Role, state: SessionState, event: SessionEvent) -> Option<
    SessionState,
> {
    match (state, event) {
        (SessionState::Initialized, SessionEvent::EngineInvoked) => Some(SessionState::Computing),
        (SessionState::Computing, SessionEvent::EngineSucceeded) => Some(
            if role == Role::Leader {
                SessionState::Finalizing
            } else {
                SessionState::Done
            },
        ),
        (SessionState::Computing, SessionEvent::EngineFailed) => Some(SessionState::Failed),
        (SessionState::Finalizing, SessionEvent::ProofStored) => Some(SessionState::Done),
        _ => None,
    }
}

/// One participant's session: its role, fixed by its prover index, and the
/// state it has reached.
#[derive(Clone, Copy, Debug, PartialEq, Eq)]
pub struct Session {
    role: Role,
    state: SessionState,
}

impl Session {
    /// The role of the participant.
    pub closed spec fn spec_role(&self) -> Role {
        self.role
    }

    /// The state the session has reached.
    pub closed spec fn spec_state(&self) -> SessionState {
        self.state
    }

    /// The session of the prover with the given index, once its artifacts
    /// and configuration are loaded.
    pub fn open(prover_index: usize) -> (session: Session)
        ensures
            session.spec_role() == Role::of_index(prover_index),
            session.spec_state() == SessionState::Initialized,
    {
        Session { role: Role::from_index(prover_index), state: SessionState::Initialized }
    }

    /// The role of the participant.
    pub fn role(&self) -> (role: Role)
        ensures
            role == self.spec_role(),
    {
        self.role
    }

    /// The state the session has reached.
    pub fn state(&self) -> (state: SessionState)
        ensures
            state == self.spec_state(),
    {
        self.state
    }

    /// Takes the session through an event. An event that cannot happen in
    /// the present state leaves the session as it is and is reported.
    pub fn advance(&mut self, event: SessionEvent) -> (moved: bool)
        ensures
            final(self).spec_role() == old(self).spec_role(),
            match transition(old(self).spec_role(), old(self).spec_state(), event) {
                Some(next) => moved && final(self).spec_state() == next,
                None => !moved && final(self).spec_state() == old(self).spec_state(),
            },
    {
        let next = match self.state {
            SessionState::Initialized => match event {
                SessionEvent::EngineInvoked => Some(SessionState::Computing),
                _ => None,
            },
            SessionState::Computing => match event {
                SessionEvent::EngineSucceeded => if self.role.is_leader() {
                    Some(SessionState::Finalizing)
                } else {
                    Some(SessionState::Done)
                },
                SessionEvent::EngineFailed => Some(SessionState::Failed),
                _ => None,
            },
            SessionState::Finalizing => match event {
                SessionEvent::ProofStored => Some(SessionState::Done),
                _ => None,
            },
            _ => None,
        };
        match next {
            Some(state) => {
                self.state = state;
                true
            },
            None => false,
        }
    }
}

/// The store and the result after the engine answered one participant of a
/// distributed run: the leader's proof replaces the family's stored proof;
/// a follower's success and every failure leave the store as it was.
pub open spec fn session_settled(
    store: Map<ArtifactId, Seq<u8>>,
    name: Seq<char>,
    role: Role,
    computed: Result<Seq<u8>, ErrorView>,
) -> (Map<ArtifactId, Seq<u8>>, Result<(), ErrorView>) {
    match computed {
        Ok(proof) => (
            if role == Role::Leader {
                store.insert(ArtifactId::for_proof(name), proof)
            } else {
                store
            },
            Ok(()),
        ),
        Err(error) => (store, Err(error)),
    }
}

/// The state a session ends in once the engine has answered.
pub open spec fn settled_state(computed: Result<Seq<u8>, ErrorView>) -> SessionState {
    if computed is Ok {
        SessionState::Done
    } else {
        SessionState::Failed
    }
}

/// What one participant's distributed proving call does to a store and
/// returns, given what the engine answers when it is asked. The engine is
/// asked only where the proving inputs load.
pub open spec fn distributed_proving_effect(
    store: Map<ArtifactId, Seq<u8>>,
    name: Seq<char>,
    degree: u32,
    seed: Seq<u8>,
    prover_index: usize,
    computed: Result<Seq<u8>, ErrorView>,
) -> (Map<ArtifactId, Seq<u8>>, Result<(), ErrorView>) {
    match proving_inputs(store, name, degree, seed) {
        Err(error) => (store, Err(error)),
        Ok(_) => session_settled(store, name, Role::of_index(prover_index), computed),
    }
}

/// Ends a computing session once the engine has answered. On success the
/// leader goes on to finalize and stores the proof, and a follower is done
/// without touching the store; a failure is handed on as it came, with
/// nothing written.
pub fn settle_session(
    session: &mut Session,
    store: &mut ArtifactStore,
    name: &str,
    computed: Result<Vec<u8>, Error>,
) -> (outcome: Result<(), Error>)
    requires
        old(session).spec_state() == SessionState::Computing,
    ensures
        final(session).spec_role() == old(session).spec_role(),
        final(session).spec_state() == settled_state(outcome_view(computed)),
        (final(store)@, outcome_view(outcome)) == session_settled(
            old(store)@,
            name@,
            old(session).spec_role(),
            outcome_view(computed),
        ),
        computed matches Err(error) ==> outcome == Err::<(), Error>(error),
{
    match computed {
        Ok(proof) => {
            session.advance(SessionEvent::EngineSucceeded);
            if session.state() == SessionState::Finalizing {
                store.write(ArtifactKey::for_proof(name), proof);
                session.advance(SessionEvent::ProofStored);
            }
            Ok(())
        },
        Err(error) => {
            session.advance(SessionEvent::EngineFailed);
            Err(error)
        },
    }
}

} // verus!

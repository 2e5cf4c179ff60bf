//! Workflow management for zk-SNARK lifecycles: cached setup, local and
//! distributed proving, and verification, with the proof system itself kept
//! behind a narrow engine interface.

pub mod artifact;
pub mod coordinator;
pub mod engine;
pub mod error;
pub mod family;
pub mod helper;
pub mod laws;
pub mod parameters;
pub mod proving;
pub mod setup;
pub mod verification;

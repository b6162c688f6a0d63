//! Verification of a claimed rollup state transition.
//!
//! The crate re-derives the next state of a chain from its agreed pre-state and
//! compares the commitment of that state with a claim. Everything that waits on
//! a collaborator (the preimage oracle, the derivation pipeline, the execution
//! engine) is written as a state machine: the library decides, the caller
//! performs the requested work and hands the outcome back.

pub mod boot;
pub mod compression;
pub mod driver;
pub mod executor;
pub mod executor_lemmas;
pub mod node;
pub mod pipeline;
pub mod primitives;
pub mod protocol;
pub mod rlp;
pub mod rlp_lemmas;
pub mod state;
pub mod state_lemmas;

//! A rollback-netcode engine for real-time multiplayer simulations.
//!
//! Participants exchange compact per-frame input while each runs an identical
//! deterministic simulation. When remote input for an already-simulated frame
//! arrives late, the session rewinds to the last confirmed snapshot, replays
//! forward with corrected inputs, and resumes.

pub mod backends;
pub mod clock;
pub mod game_input;
pub mod input_queue;
pub mod network;
pub mod ringbuffer;
pub mod rbackend;
pub mod rgame;
pub mod rmercury;
pub mod rmercury_builder;
pub mod rmercury_channel;
pub mod rmercury_game_interface;
pub mod rmercury_input;
pub mod rsynctest;
pub mod rsystem;
pub mod utility;

pub use crate::{
    rmercury::MercuryType, rmercury::RMercury, rmercury::RMercuryExecutionResults,
    rmercury_builder::RMercuryBuilder, rmercury_game_interface::RMercuryGameInterface,
    rmercury_input::RMercuryInput,
};

//! Real-time core of a MIDI step sequencer: tempo, notes and patterns, the
//! shared performance state, the decisions of the playback loop and the
//! Euclidean pattern generator.
//!
//! Nothing here waits, locks or talks to a device. The playback loop and the
//! generator are given as steps: each takes what has just happened and says
//! what is to be done next, so that whoever owns the clock, the channels and
//! the MIDI port can hold the shared state for the length of one step and
//! never across a delay.

pub mod input;
pub mod note;
pub mod playback;
pub mod sequencers;
pub mod state;
pub mod tempo;

//! The control messages that the playback loop consumes.

use crate::note::Sequence;
use crate::sequencers::euclidean::EuclideanSequencerInput;
use crate::sequencers::markov::MarkovSequencerInput;
use vstd::prelude::*;

verus! {

/// A control message.
#[derive(Clone, Debug, PartialEq, Eq)]
pub enum Input {
    /// Set the tempo to this many thousandths of a beat per minute.
    Bpm(u32),
    /// Replace the active pattern.
    Sequence(Sequence),
    /// Silence the device and end the loop.
    Shutdown,
    /// Flip between playing and paused.
    TogglePlayback,
    /// Raise the tempo by one beat per minute.
    IncreaseBpm,
    /// Lower the tempo by one beat per minute.
    DecreaseBpm,
    /// A message for the Euclidean generator.
    Euclidean(EuclideanSequencerInput),
    /// A message for the stochastic generator.
    Markov(MarkovSequencerInput),
}

} // verus!

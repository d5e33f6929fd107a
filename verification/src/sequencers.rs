//! Pattern generators.
//!
//! A generator makes a pattern from its own configuration and the tempo of
//! the moment. The Euclidean generator is given in full; the stochastic one
//! has its place kept.

use crate::note::Sequence;
use crate::tempo::Tempo;
use vstd::prelude::*;

pub mod euclidean;
pub mod markov;

verus! {

/// What every pattern generator does.
pub trait Sequencer {
    /// Makes the generator's pattern at the tempo `bpm`: every note of it is
    /// sized at that tempo.
    fn generate_sequence(&self, bpm: Tempo) -> (sequence: Sequence)
        ensures
            forall|i: int| 0 <= i < sequence@.len() ==> (#[trigger] sequence@[i]).bpm() == bpm,
    ;
}

} // verus!

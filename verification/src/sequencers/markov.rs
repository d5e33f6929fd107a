//! The stochastic generator: its place in the message taxonomy.
//!
//! Only the boundary is fixed. A generator of this family implements
//! [`Sequencer`](crate::sequencers::Sequencer) and receives its own messages;
//! the playback loop hands them on unread.

use vstd::prelude::*;

verus! {

/// A message for the stochastic generator. It carries nothing yet.
#[derive(Clone, Copy, Debug, PartialEq, Eq)]
pub struct MarkovSequencerInput;

} // verus!

//! The shared performance state: tempo, play flag, the pattern being played
//! and the slots into which generators write theirs.

use crate::note::Note;
use crate::note::Sequence;
use crate::tempo::Tempo;
use crate::tempo::DEFAULT_MILLI_BPM;
use vstd::prelude::*;

verus! {

/// The index of the first generator slot.
pub const SLOT_A: usize = 0;

/// The index of the second generator slot.
pub const SLOT_B: usize = 1;

/// Whether `slot` is the index of a generator slot.
pub open spec fn spec_is_slot(slot: usize) -> bool {
    slot == SLOT_A || slot == SLOT_B
}

/// Whether `slot` is the index of a generator slot.
#[verifier::when_used_as_spec(spec_is_slot)]
pub fn is_slot(slot: usize) -> (known: bool)
    ensures
        known == spec_is_slot(slot),
{
    slot == SLOT_A || slot == SLOT_B
}

/// The patterns that the generators have written, one slot for each.
#[derive(Clone, Debug, PartialEq, Eq)]
pub struct MixerConfig {
    pub sequence_a: Sequence,
    pub sequence_b: Sequence,
}

/// What the playback loop and the generators share.
///
/// The playback loop alone writes `bpm`, `playing` and `sequence`; each
/// generator writes the one slot it was given.
#[derive(Clone, Debug, PartialEq, Eq)]
pub struct SharedState {
    pub bpm: Tempo,
    pub playing: bool,
    pub sequence: Sequence,
    pub mixer_config: MixerConfig,
}

/// Why the state refused a write.
#[derive(Clone, Copy, Debug, PartialEq, Eq)]
pub enum StateError {
    /// There is no slot of this index.
    InvalidSlot(usize),
}

impl SharedState {
    /// The state a performance starts in: 120 beats per minute, paused, with
    /// no notes in the active pattern nor in either slot.
    pub fn new() -> (state: SharedState)
        ensures
            state.bpm == Tempo::of(DEFAULT_MILLI_BPM as int),
            state.bpm@ == DEFAULT_MILLI_BPM,
            !state.playing,
            state.sequence@ == Seq::<Note>::empty(),
            state.mixer_config.sequence_a@ == Seq::<Note>::empty(),
            state.mixer_config.sequence_b@ == Seq::<Note>::empty(),
    {
        SharedState {
            bpm: Tempo::default(),
            playing: false,
            sequence: Sequence::empty(),
            mixer_config: MixerConfig {
                sequence_a: Sequence::empty(),
                sequence_b: Sequence::empty(),
            },
        }
    }

    /// Replaces the pattern in slot `slot` by `sequence` and leaves the rest
    /// of the state as it was. For an index that names no slot nothing is
    /// written and the index comes back in the error.
    pub fn write_slot(&mut self, slot: usize, sequence: Sequence) -> (written: Result<(), StateError>)
        ensures
            final(self).bpm == old(self).bpm,
            final(self).playing == old(self).playing,
            final(self).sequence == old(self).sequence,
            slot == SLOT_A ==> written is Ok
                && final(self).mixer_config.sequence_a == sequence
                && final(self).mixer_config.sequence_b == old(self).mixer_config.sequence_b,
            slot == SLOT_B ==> written is Ok
                && final(self).mixer_config.sequence_a == old(self).mixer_config.sequence_a
                && final(self).mixer_config.sequence_b == sequence,
            !is_slot(slot) ==> written == Err::<(), StateError>(StateError::InvalidSlot(slot))
                && *final(self) == *old(self),
    {
        if slot == SLOT_A {
            self.mixer_config.sequence_a = sequence;
            Ok(())
        } else if slot == SLOT_B {
            self.mixer_config.sequence_b = sequence;
            Ok(())
        } else {
            Err(StateError::InvalidSlot(slot))
        }
    }
}

} // verus!

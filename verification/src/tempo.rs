//! Tempo as a positive fixed-point number of beats per minute.
//!
//! A tempo is held in thousandths of a beat per minute, so that fractional
//! tempos are exact and every duration derived from one is integer
//! arithmetic. Zero is not a tempo: no value of [`Tempo`] holds it.

use vstd::prelude::*;

verus! {

/// Thousandths of a beat per minute in one beat per minute.
pub const MILLI_PER_BPM: u32 = 1000;

/// The fastest tempo that can be held, in thousandths of a beat per minute.
pub const MAX_MILLI_BPM: u32 = 4_294_967_295;

/// The tempo a performance starts with, in thousandths of a beat per minute:
/// 120 beats per minute.
pub const DEFAULT_MILLI_BPM: u32 = 120_000;

/// A tempo: a positive number of thousandths of a beat per minute.
///
/// The view of a tempo is that number.
#[derive(Clone, Copy, Debug, PartialEq, Eq)]
pub struct Tempo {
    milli_bpm: u32,
}

impl View for Tempo {
    type V = nat;

    closed spec fn view(&self) -> nat {
        self.milli_bpm as nat
    }
}

impl Tempo {
    /// What holds of every tempo that executable code can hold: it is not
    /// zero.
    #[verifier::type_invariant]
    pub closed spec fn wf(self) -> bool {
        self.milli_bpm > 0
    }

    /// The tempo of `milli_bpm` thousandths of a beat per minute, for a
    /// `milli_bpm` from 1 to the fastest tempo.
    pub closed spec fn of(milli_bpm: int) -> Tempo {
        Tempo { milli_bpm: milli_bpm as u32 }
    }

    /// `of` makes the tempo that it is asked for.
    pub proof fn lemma_of(milli_bpm: int)
        requires
            0 < milli_bpm <= MAX_MILLI_BPM,
        ensures
            Tempo::of(milli_bpm)@ == milli_bpm,
            Tempo::of(milli_bpm).wf(),
    {
    }

    /// The tempo of `milli_bpm` thousandths of a beat per minute, or `None`
    /// for zero.
    pub fn from_milli_bpm(milli_bpm: u32) -> (tempo: Option<Tempo>)
        ensures
            tempo is None <==> milli_bpm == 0,
            tempo matches Some(t) ==> t == Tempo::of(milli_bpm as int) && t@ == milli_bpm,
    {
        if milli_bpm == 0 {
            None
        } else {
            Some(Tempo { milli_bpm })
        }
    }

    /// The tempo of `bpm` whole beats per minute, or `None` where `bpm` is
    /// zero or too fast to be held.
    ///
    /// The contract writes the thousand of [`MILLI_PER_BPM`] out, so that for
    /// a given `bpm` the product is a number to the solver.
    pub fn from_bpm(bpm: u32) -> (tempo: Option<Tempo>)
        ensures
            tempo is None <==> (bpm == 0 || bpm * 1000 > MAX_MILLI_BPM),
            tempo matches Some(t) ==> t == Tempo::of(bpm * 1000) && t@ == bpm * 1000,
    {
        if bpm == 0 || bpm > MAX_MILLI_BPM / MILLI_PER_BPM {
            None
        } else {
            Some(Tempo { milli_bpm: bpm * MILLI_PER_BPM })
        }
    }

    /// The number of thousandths of a beat per minute.
    pub fn milli_bpm(&self) -> (m: u32)
        ensures
            m == self@,
            m > 0,
    {
        proof {
            use_type_invariant(self);
        }
        self.milli_bpm
    }

    /// This tempo raised by one beat per minute, or `None` where that is too
    /// fast to be held.
    pub fn faster(&self) -> (tempo: Option<Tempo>)
        ensures
            tempo is None <==> self@ + MILLI_PER_BPM > MAX_MILLI_BPM,
            tempo matches Some(t) ==> t == Tempo::of(self@ + MILLI_PER_BPM) && t@ == self@
                + MILLI_PER_BPM,
    {
        if self.milli_bpm > MAX_MILLI_BPM - MILLI_PER_BPM {
            None
        } else {
            Some(Tempo { milli_bpm: self.milli_bpm + MILLI_PER_BPM })
        }
    }

    /// This tempo lowered by one beat per minute, or `None` where nothing
    /// positive would be left.
    pub fn slower(&self) -> (tempo: Option<Tempo>)
        ensures
            tempo is None <==> self@ <= MILLI_PER_BPM,
            tempo matches Some(t) ==> t == Tempo::of(self@ - MILLI_PER_BPM) && t@ == self@
                - MILLI_PER_BPM,
    {
        if self.milli_bpm <= MILLI_PER_BPM {
            None
        } else {
            Some(Tempo { milli_bpm: self.milli_bpm - MILLI_PER_BPM })
        }
    }

    /// A well-formed tempo is positive and no faster than the fastest.
    pub proof fn lemma_view_in_range(self)
        requires
            self.wf(),
        ensures
            0 < self@ <= MAX_MILLI_BPM,
    {
    }
}

impl Default for Tempo {
    /// 120 beats per minute.
    fn default() -> (tempo: Tempo)
        ensures
            tempo == Tempo::of(DEFAULT_MILLI_BPM as int),
            tempo@ == DEFAULT_MILLI_BPM,
    {
        Tempo { milli_bpm: DEFAULT_MILLI_BPM }
    }
}

} // verus!

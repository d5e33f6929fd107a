//! The Euclidean rhythm generator.
//!
//! A configuration of `pulses`, `steps` and `pitch` stands for a pattern of
//! `steps` sixteenth notes of which `pulses` sound, spread as evenly as whole
//! steps allow: the `k`-th pulse falls on step `k * steps / pulses`, rounded
//! down. The other steps are rests. With no pulse at all the pattern is one
//! single rest.

use crate::note::note_micros;
use crate::note::Note;
use crate::note::NoteDuration;
use crate::note::Sequence;
use crate::note::MAX_DATA_BYTE;
use crate::sequencers::Sequencer;
use crate::state::is_slot;
use crate::tempo::Tempo;
use vstd::arithmetic::div_mod::lemma_div_multiples_vanish;
use vstd::arithmetic::div_mod::lemma_div_pos_is_pos;
use vstd::arithmetic::div_mod::lemma_multiply_divide_lt;
use vstd::prelude::*;

verus! {

/// The velocity of every pulse.
pub const ONSET_VELOCITY: u8 = 100;

/// A message for the Euclidean generator. The playback loop hands it on
/// unread.
#[derive(Clone, Copy, Debug, PartialEq, Eq)]
pub enum EuclideanSequencerInput {
    IncreaseSteps,
    DecreaseSteps,
}

/// What a Euclidean pattern is made from.
#[derive(Clone, Copy, Debug, PartialEq, Eq)]
pub struct EuclideanSequencerConfig {
    /// How many steps sound.
    pub pulses: u32,
    /// How many steps the pattern has.
    pub steps: u32,
    /// The pitch of the steps that sound.
    pub pitch: u8,
}

/// Why a configuration is turned down.
#[derive(Clone, Copy, Debug, PartialEq, Eq)]
pub enum ConfigError {
    /// The pattern would have no steps.
    ZeroSteps,
    /// There are more pulses than steps.
    TooManyPulses,
    /// The pitch is above 127.
    PitchOutOfRange,
}

/// Why the generator did not take a configuration.
#[derive(Clone, Copy, Debug, PartialEq, Eq)]
pub enum SequencerError {
    /// The configuration is not valid.
    Config(ConfigError),
    /// The generator was given a slot that does not exist.
    InvalidSlot(usize),
}

impl EuclideanSequencerConfig {
    /// What is wrong with the configuration, if anything; of several faults
    /// the first in the order of [`ConfigError`].
    pub open spec fn fault(&self) -> Option<ConfigError> {
        if self.steps == 0 {
            Some(ConfigError::ZeroSteps)
        } else if self.pulses > self.steps {
            Some(ConfigError::TooManyPulses)
        } else if self.pitch > MAX_DATA_BYTE {
            Some(ConfigError::PitchOutOfRange)
        } else {
            None
        }
    }

    /// Whether a pattern can be made from the configuration: it has a step,
    /// no more pulses than steps, and a pitch of at most 127.
    pub open spec fn is_valid(&self) -> bool {
        &&& self.steps > 0
        &&& self.pulses <= self.steps
        &&& self.pitch <= MAX_DATA_BYTE
    }

    /// The configuration a generator starts with: four pulses on sixteen
    /// steps, at middle C.
    pub fn new() -> (config: EuclideanSequencerConfig)
        ensures
            config == (EuclideanSequencerConfig { pulses: 4, steps: 16, pitch: 60 }),
            config.is_valid(),
    {
        EuclideanSequencerConfig { pulses: 4, steps: 16, pitch: 60 }
    }

    /// Accepts the configuration or says what is wrong with it.
    pub fn validate(&self) -> (checked: Result<(), ConfigError>)
        ensures
            checked is Ok <==> self.is_valid(),
            checked is Ok <==> self.fault() is None,
            checked matches Err(error) ==> self.fault() == Some(error),
    {
        if self.steps == 0 {
            Err(ConfigError::ZeroSteps)
        } else if self.pulses > self.steps {
            Err(ConfigError::TooManyPulses)
        } else if self.pitch > MAX_DATA_BYTE {
            Err(ConfigError::PitchOutOfRange)
        } else {
            Ok(())
        }
    }
}

/// The step on which the `k`-th of `pulses` pulses falls in a pattern of
/// `steps` steps, counting pulses and steps from zero.
pub open spec fn onset(k: int, pulses: int, steps: int) -> int {
    (k * steps) / pulses
}

/// Whether one of the `pulses` pulses falls on step `step`.
pub open spec fn is_onset(step: int, pulses: int, steps: int) -> bool {
    exists|k: int| 0 <= k < pulses && #[trigger] onset(k, pulses, steps) == step
}

/// The steps that sound.
pub open spec fn onsets(pulses: int, steps: int) -> Set<int> {
    Set::new(|step: int| is_onset(step, pulses, steps))
}

/// The steps of `pattern` on which an audible note stands.
pub open spec fn audible_steps(pattern: Seq<Note>) -> Set<int> {
    Set::new(|step: int| 0 <= step < pattern.len() && pattern[step].is_audible())
}

/// The note on step `step` of the pattern of `config` at the tempo `bpm`: a
/// sixteenth note of the configured pitch where a pulse falls, a sixteenth
/// rest elsewhere.
pub open spec fn euclidean_note(step: int, config: EuclideanSequencerConfig, bpm: Tempo) -> Note {
    if is_onset(step, config.pulses as int, config.steps as int) {
        Note::of(config.pitch, ONSET_VELOCITY, NoteDuration::Sixteenth, bpm)
    } else {
        Note::of(0, 0, NoteDuration::Sixteenth, bpm)
    }
}

/// The pattern of `config` at the tempo `bpm`.
pub open spec fn euclidean_pattern(config: EuclideanSequencerConfig, bpm: Tempo) -> Seq<Note> {
    if config.pulses == 0 {
        seq![Note::of(0, 0, NoteDuration::Sixteenth, bpm)]
    } else {
        Seq::new(config.steps as nat, |step: int| euclidean_note(step, config, bpm))
    }
}

/// Whether every note of `pattern` is what `config` asks for at the tempo
/// `bpm`: a sixteenth note sized at that tempo, with the configured pitch and
/// the velocity of a pulse on the steps where a pulse falls, and a rest on
/// the others.
pub open spec fn sounds_as_configured(
    pattern: Seq<Note>,
    config: EuclideanSequencerConfig,
    bpm: Tempo,
) -> bool {
    forall|step: int|
        0 <= step < pattern.len() ==> {
            let note = #[trigger] pattern[step];
            &&& note.bpm() == bpm
            &&& note.duration_micros() == note_micros(NoteDuration::Sixteenth, bpm@)
            &&& if config.pulses > 0 && is_onset(step, config.pulses as int, config.steps as int) {
                note.pitch() == config.pitch && note.velocity() == ONSET_VELOCITY
            } else {
                note.is_rest()
            }
        }
}

/// The pattern of a configuration sounds as configured.
pub proof fn lemma_pattern_sounds_as_configured(config: EuclideanSequencerConfig, bpm: Tempo)
    requires
        bpm.wf(),
    ensures
        sounds_as_configured(euclidean_pattern(config, bpm), config, bpm),
{
    Note::lemma_of(config.pitch, ONSET_VELOCITY, NoteDuration::Sixteenth, bpm);
    Note::lemma_of(0, 0, NoteDuration::Sixteenth, bpm);
}

/// Every pulse falls on a step of the pattern.
pub proof fn lemma_onset_in_pattern(k: int, pulses: int, steps: int)
    requires
        0 <= k < pulses,
        0 < steps,
    ensures
        0 <= onset(k, pulses, steps) < steps,
{
    assert(0 <= k * steps < pulses * steps) by (nonlinear_arith)
        requires
            0 <= k < pulses,
            0 < steps,
    ;
    lemma_div_pos_is_pos(k * steps, pulses);
    lemma_multiply_divide_lt(k * steps, pulses, steps);
}

/// With as many pulses as steps, the `k`-th pulse falls on step `k`.
pub proof fn lemma_onset_of_full_pattern(k: int, steps: int)
    requires
        0 < steps,
    ensures
        onset(k, steps, steps) == k,
{
    lemma_div_multiples_vanish(k, steps);
    assert(k * steps == steps * k) by (nonlinear_arith);
}

/// With no more pulses than steps, later pulses fall on later steps: no two
/// pulses share a step.
pub proof fn lemma_onsets_increase(j: int, k: int, pulses: int, steps: int)
    requires
        0 <= j < k,
        0 < pulses <= steps,
    ensures
        onset(j, pulses, steps) < onset(k, pulses, steps),
{
    let a = j * steps;
    let b = k * steps;
    assert(a + pulses <= b) by (nonlinear_arith)
        requires
            a == j * steps,
            b == k * steps,
            0 <= j < k,
            0 < pulses <= steps,
    ;
    assert(a / pulses < b / pulses) by (nonlinear_arith)
        requires
            a + pulses <= b,
            0 <= a,
            0 < pulses,
    ;
}

/// Walking the steps in order, the next pulse alone decides whether a step
/// sounds. Where the pulses before `pulse` fall on steps before `step` and
/// the others do not, a pulse falls on `step` just when pulse `pulse` does;
/// and the same then holds one step on, with the pulse after it if it did.
pub proof fn lemma_next_pulse_decides(step: int, pulse: int, pulses: int, steps: int)
    requires
        0 < pulses <= steps,
        0 <= pulse <= pulses,
        forall|k: int| 0 <= k < pulse ==> #[trigger] onset(k, pulses, steps) < step,
        pulse < pulses ==> onset(pulse, pulses, steps) >= step,
    ensures
        is_onset(step, pulses, steps) <==> pulse < pulses && onset(pulse, pulses, steps) == step,
        ({
            let next = if is_onset(step, pulses, steps) {
                pulse + 1
            } else {
                pulse
            };
            &&& forall|k: int| 0 <= k < next ==> #[trigger] onset(k, pulses, steps) < step + 1
            &&& next < pulses ==> onset(next, pulses, steps) >= step + 1
        }),
{
    if is_onset(step, pulses, steps) {
        let k = choose|k: int| 0 <= k < pulses && #[trigger] onset(k, pulses, steps) == step;
        if pulse < k {
            lemma_onsets_increase(pulse, k, pulses, steps);
        }
        assert(k == pulse);
        if pulse + 1 < pulses {
            lemma_onsets_increase(pulse, pulse + 1, pulses, steps);
        }
    }
}

/// With as many pulses as steps every note of the pattern is audible, and
/// has the configured pitch.
pub proof fn lemma_full_pattern_is_audible(config: EuclideanSequencerConfig, bpm: Tempo)
    requires
        config.is_valid(),
        config.pulses == config.steps,
        bpm.wf(),
    ensures
        forall|step: int|
            0 <= step < config.steps ==> {
                &&& (#[trigger] euclidean_pattern(config, bpm)[step]).is_audible()
                &&& euclidean_pattern(config, bpm)[step].pitch() == config.pitch
            },
{
    assert forall|step: int| 0 <= step < config.steps implies {
        &&& (#[trigger] euclidean_pattern(config, bpm)[step]).is_audible()
        &&& euclidean_pattern(config, bpm)[step].pitch() == config.pitch
    } by {
        lemma_onset_of_full_pattern(step, config.steps as int);
        assert(onset(step, config.pulses as int, config.steps as int) == step);
        Note::lemma_of(config.pitch, ONSET_VELOCITY, NoteDuration::Sixteenth, bpm);
    }
}

/// Without a pulse the pattern is one silent note, whatever the number of
/// steps.
pub proof fn lemma_empty_pattern_is_one_rest(config: EuclideanSequencerConfig, bpm: Tempo)
    requires
        config.pulses == 0,
        bpm.wf(),
    ensures
        euclidean_pattern(config, bpm).len() == 1,
        euclidean_pattern(config, bpm)[0].is_rest(),
        !euclidean_pattern(config, bpm)[0].is_audible(),
{
    Note::lemma_of(0, 0, NoteDuration::Sixteenth, bpm);
}

/// The audible notes of a pattern with a pulse stand on the steps
/// `k * steps / pulses`, for `k` from zero up to `pulses`, and on no others.
pub proof fn lemma_audible_steps_are_onsets(config: EuclideanSequencerConfig, bpm: Tempo)
    requires
        config.is_valid(),
        config.pulses > 0,
        bpm.wf(),
    ensures
        audible_steps(euclidean_pattern(config, bpm)) == onsets(
            config.pulses as int,
            config.steps as int,
        ),
{
    let pattern = euclidean_pattern(config, bpm);
    let pulses = config.pulses as int;
    let steps = config.steps as int;
    Note::lemma_of(config.pitch, ONSET_VELOCITY, NoteDuration::Sixteenth, bpm);
    Note::lemma_of(0, 0, NoteDuration::Sixteenth, bpm);
    assert forall|step: int| audible_steps(pattern).contains(step) == onsets(
        pulses,
        steps,
    ).contains(step) by {
        if is_onset(step, pulses, steps) {
            let k = choose|k: int| 0 <= k < pulses && #[trigger] onset(k, pulses, steps) == step;
            lemma_onset_in_pattern(k, pulses, steps);
        }
    }
    assert(audible_steps(pattern) =~= onsets(pulses, steps));
}

/// A pattern sounds on exactly as many steps as the configuration has
/// pulses.
pub proof fn lemma_pattern_has_all_pulses(config: EuclideanSequencerConfig, bpm: Tempo)
    requires
        config.is_valid(),
        bpm.wf(),
    ensures
        audible_steps(euclidean_pattern(config, bpm)).finite(),
        audible_steps(euclidean_pattern(config, bpm)).len() == config.pulses,
{
    let pattern = euclidean_pattern(config, bpm);
    let pulses = config.pulses as int;
    let steps = config.steps as int;
    if config.pulses == 0 {
        lemma_empty_pattern_is_one_rest(config, bpm);
        assert(audible_steps(pattern) =~= Set::<int>::empty());
    } else {
        lemma_audible_steps_are_onsets(config, bpm);
        let numbers = vstd::set_lib::set_int_range(0, pulses);
        let place = |k: int| onset(k, pulses, steps);
        vstd::set_lib::lemma_int_range(0, pulses);
        assert forall|j: int, k: int|
            numbers.contains(j) && numbers.contains(k) && #[trigger] place(j) == #[trigger] place(
                k,
            ) implies j == k by {
            if j < k {
                lemma_onsets_increase(j, k, pulses, steps);
            }
            if k < j {
                lemma_onsets_increase(k, j, pulses, steps);
            }
        }
        assert forall|step: int| numbers.map(place).contains(step) == onsets(
            pulses,
            steps,
        ).contains(step) by {
            if numbers.map(place).contains(step) {
                let k = choose|k: int| numbers.contains(k) && step == place(k);
                assert(onset(k, pulses, steps) == step);
            }
            if is_onset(step, pulses, steps) {
                let k = choose|k: int| 0 <= k < pulses && #[trigger] onset(k, pulses, steps) == step;
                assert(numbers.contains(k) && step == place(k));
            }
        }
        assert(numbers.map(place) =~= onsets(pulses, steps));
        vstd::set_lib::lemma_map_size(numbers, onsets(pulses, steps), place);
    }
}

/// The step on which the `k`-th of `pulses` pulses falls in a pattern of
/// `steps` steps. It is a step of the pattern, where the pattern has one.
pub fn onset_step(k: u32, pulses: u32, steps: u32) -> (step: u32)
    requires
        k < pulses,
    ensures
        step == onset(k as int, pulses as int, steps as int),
        steps > 0 ==> step < steps,
{
    proof {
        if steps > 0 {
            lemma_onset_in_pattern(k as int, pulses as int, steps as int);
        }
        assert(0 <= k * steps <= 0xffff_ffff * 0xffff_ffff) by (nonlinear_arith)
            requires
                0 <= k <= 0xffff_ffff,
                0 <= steps <= 0xffff_ffff,
        ;
    }
    let product: u64 = (k as u64) * (steps as u64);
    let step: u64 = product / (pulses as u64);
    step as u32
}

/// The Euclidean generator: the configuration that it makes its patterns
/// from, which is always a valid one.
#[derive(Clone, Copy, Debug, PartialEq, Eq)]
pub struct EuclideanSequencer {
    config: EuclideanSequencerConfig,
}

impl EuclideanSequencer {
    /// What holds of every generator that executable code can hold: its
    /// configuration is valid.
    #[verifier::type_invariant]
    pub closed spec fn wf(self) -> bool {
        self.config.is_valid()
    }

    pub closed spec fn spec_config(&self) -> EuclideanSequencerConfig {
        self.config
    }

    /// A generator with the configuration that [`EuclideanSequencerConfig::new`]
    /// gives.
    pub fn new() -> (sequencer: EuclideanSequencer)
        ensures
            sequencer.config() == (EuclideanSequencerConfig { pulses: 4, steps: 16, pitch: 60 }),
    {
        EuclideanSequencer { config: EuclideanSequencerConfig::new() }
    }

    /// The configuration in use.
    #[verifier::when_used_as_spec(spec_config)]
    pub fn config(&self) -> (config: EuclideanSequencerConfig)
        ensures
            config == self.spec_config(),
            config.is_valid(),
    {
        proof {
            use_type_invariant(self);
        }
        self.config
    }

    /// Takes a new configuration for the generator that writes to slot
    /// `sequencer_slot`, at the tempo `bpm`.
    ///
    /// A valid configuration for a slot that exists is kept for later
    /// patterns, and its pattern at `bpm` comes back: it is to be written to
    /// that slot, and the update signalled once. A configuration that is not
    /// valid is turned down with what is wrong with it; for a valid one, a
    /// slot that does not exist is turned down. The generator then stays as
    /// it was, and there is nothing to write or to signal.
    pub fn reconfigure(
        &mut self,
        config: EuclideanSequencerConfig,
        sequencer_slot: usize,
        bpm: Tempo,
    ) -> (result: Result<Sequence, SequencerError>)
        ensures
            match reconfigured(config, sequencer_slot) {
                Ok(()) => {
                    &&& result matches Ok(sequence) && {
                        &&& sequence@ == euclidean_pattern(config, bpm)
                        &&& sequence@.len() == (if config.pulses == 0 {
                            1
                        } else {
                            config.steps as int
                        })
                        &&& sounds_as_configured(sequence@, config, bpm)
                    }
                    &&& final(self).config() == config
                },
                Err(error) => {
                    &&& result matches Err(refusal) && refusal == error
                    &&& *final(self) == *old(self)
                },
            },
    {
        match config.validate() {
            Err(error) => Err(SequencerError::Config(error)),
            Ok(()) => {
                if !is_slot(sequencer_slot) {
                    return Err(SequencerError::InvalidSlot(sequencer_slot));
                }
                self.config = config;
                Ok(self.generate_sequence(bpm))
            },
        }
    }
}

/// Whether `reconfigure` takes `config` for the slot `sequencer_slot`, and
/// why not. Of a configuration that is not valid and a slot that does not
/// exist, the configuration is named.
pub open spec fn reconfigured(config: EuclideanSequencerConfig, sequencer_slot: usize) -> Result<
    (),
    SequencerError,
> {
    match config.fault() {
        Some(error) => Err(SequencerError::Config(error)),
        None => if is_slot(sequencer_slot) {
            Ok(())
        } else {
            Err(SequencerError::InvalidSlot(sequencer_slot))
        },
    }
}

impl Sequencer for EuclideanSequencer {
    /// The pattern of the configuration in use, with every note sized at the
    /// tempo `bpm`.
    ///
    /// With a pulse, the pattern has as many notes as the configuration has
    /// steps, and those on which a pulse falls are audible, the others rests:
    /// as many audible notes as pulses, and with as many pulses as steps no
    /// rest at all. Without a pulse it is a single rest.
    fn generate_sequence(&self, bpm: Tempo) -> (sequence: Sequence)
        ensures
            sequence@ == euclidean_pattern(self.config(), bpm),
            self.config().pulses > 0 ==> sequence@.len() == self.config().steps,
            self.config().pulses == 0 ==> sequence@.len() == 1 && sequence@[0].is_rest(),
            sounds_as_configured(sequence@, self.config(), bpm),
            self.config().pulses > 0 ==> audible_steps(sequence@) == onsets(
                self.config().pulses as int,
                self.config().steps as int,
            ),
            audible_steps(sequence@).finite(),
            audible_steps(sequence@).len() == self.config().pulses,
            self.config().pulses == self.config().steps ==> forall|step: int|
                0 <= step < sequence@.len() ==> (#[trigger] sequence@[step]).is_audible(),
    {
        let config = self.config();
        let mut notes: Vec<Note> = Vec::new();
        proof {
            use_type_invariant(&bpm);
            Note::lemma_of(0, 0, NoteDuration::Sixteenth, bpm);
            Note::lemma_of(config.pitch, ONSET_VELOCITY, NoteDuration::Sixteenth, bpm);
            lemma_pattern_sounds_as_configured(config, bpm);
            lemma_pattern_has_all_pulses(config, bpm);
            if config.pulses == config.steps {
                lemma_full_pattern_is_audible(config, bpm);
            }
        }
        if config.pulses == 0 {
            notes.push(Note::rest(NoteDuration::Sixteenth, bpm));
            proof {
                lemma_empty_pattern_is_one_rest(config, bpm);
                assert(notes@ =~= euclidean_pattern(config, bpm));
            }
            return Sequence { notes };
        }
        let mut pulse: u32 = 0;
        let mut step: u32 = 0;
        while step < config.steps
            invariant
                config.is_valid(),
                config.pulses > 0,
                step <= config.steps,
                pulse <= config.pulses,
                notes@.len() == step,
                forall|k: int|
                    0 <= k < pulse ==> #[trigger] onset(k, config.pulses as int, config.steps as int)
                        < step,
                pulse < config.pulses ==> onset(
                    pulse as int,
                    config.pulses as int,
                    config.steps as int,
                ) >= step,
                forall|i: int| 0 <= i < step ==> #[trigger] notes@[i] == euclidean_note(i, config, bpm),
            decreases config.steps - step,
        {
            let sounds = pulse < config.pulses && onset_step(pulse, config.pulses, config.steps)
                == step;
            proof {
                lemma_next_pulse_decides(
                    step as int,
                    pulse as int,
                    config.pulses as int,
                    config.steps as int,
                );
            }
            let note = if sounds {
                pulse = pulse + 1;
                Note::new(config.pitch, ONSET_VELOCITY, NoteDuration::Sixteenth, bpm)
            } else {
                Note::rest(NoteDuration::Sixteenth, bpm)
            };
            notes.push(note);
            step = step + 1;
        }
        proof {
            assert(notes@ =~= euclidean_pattern(config, bpm));
            lemma_audible_steps_are_onsets(config, bpm);
        }
        Sequence { notes }
    }
}

} // verus!

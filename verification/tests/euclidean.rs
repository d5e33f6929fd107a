use step_sequencer::note::Note;
use step_sequencer::note::NoteDuration;
use step_sequencer::note::Sequence;
use step_sequencer::sequencers::euclidean::onset_step;
use step_sequencer::sequencers::euclidean::ConfigError;
use step_sequencer::sequencers::euclidean::EuclideanSequencer;
use step_sequencer::sequencers::euclidean::EuclideanSequencerConfig;
use step_sequencer::sequencers::euclidean::SequencerError;
use step_sequencer::sequencers::euclidean::ONSET_VELOCITY;
use step_sequencer::sequencers::Sequencer;
use step_sequencer::state::SharedState;
use step_sequencer::state::SLOT_A;
use step_sequencer::state::SLOT_B;
use step_sequencer::tempo::Tempo;

fn bpm(whole: u32) -> Tempo {
    Tempo::from_bpm(whole).unwrap()
}

fn config(pulses: u32, steps: u32, pitch: u8) -> EuclideanSequencerConfig {
    EuclideanSequencerConfig { pulses, steps, pitch }
}

fn pattern(pulses: u32, steps: u32, pitch: u8, tempo: Tempo) -> Sequence {
    let mut sequencer = EuclideanSequencer::new();
    sequencer.reconfigure(config(pulses, steps, pitch), SLOT_A, tempo).unwrap()
}

fn audible_steps(sequence: &Sequence) -> Vec<usize> {
    let mut steps = Vec::new();
    for (step, note) in sequence.notes.iter().enumerate() {
        if note.is_audible() {
            steps.push(step);
        }
    }
    steps
}

fn floor_onsets(pulses: u32, steps: u32) -> Vec<usize> {
    let mut onsets = Vec::new();
    for k in 0..u64::from(pulses) {
        onsets.push((k * u64::from(steps) / u64::from(pulses)) as usize);
    }
    onsets
}

#[test]
fn three_pulses_on_eight_steps_fall_on_0_2_5() {
    let sequence = pattern(3, 8, 60, bpm(120));
    assert_eq!(sequence.len(), 8);
    assert_eq!(audible_steps(&sequence), vec![0, 2, 5]);
}

#[test]
fn four_pulses_on_eight_steps_at_pitch_60() {
    let tempo = bpm(120);
    let sequence = pattern(4, 8, 60, tempo);
    assert_eq!(sequence.len(), 8);
    let on = Note::new(60, 100, NoteDuration::Sixteenth, tempo);
    let off = Note::rest(NoteDuration::Sixteenth, tempo);
    assert_eq!(sequence.notes, vec![on, off, on, off, on, off, on, off]);
    assert_eq!(audible_steps(&sequence), vec![0, 2, 4, 6]);
}

#[test]
fn five_pulses_on_eight_steps() {
    let sequence = pattern(5, 8, 36, bpm(100));
    assert_eq!(audible_steps(&sequence), vec![0, 1, 3, 4, 6]);
}

#[test]
fn one_pulse_falls_on_the_first_step() {
    let sequence = pattern(1, 5, 60, bpm(120));
    assert_eq!(sequence.len(), 5);
    assert_eq!(audible_steps(&sequence), vec![0]);
}

#[test]
fn one_step_with_its_pulse() {
    let sequence = pattern(1, 1, 60, bpm(120));
    assert_eq!(sequence.len(), 1);
    assert_eq!(audible_steps(&sequence), vec![0]);
}

#[test]
fn pulses_are_sixteenth_notes_of_the_configured_pitch_at_velocity_100() {
    let tempo = bpm(90);
    let sequence = pattern(3, 8, 72, tempo);
    assert_eq!(ONSET_VELOCITY, 100);
    for step in [0usize, 2, 5] {
        let note = sequence.notes[step];
        assert_eq!(note.pitch(), 72);
        assert_eq!(note.velocity(), 100);
        assert_eq!(note.duration_micros(), 166_666);
        assert_eq!(note.bpm(), tempo);
    }
}

#[test]
fn the_other_steps_are_rests_of_the_same_length() {
    let tempo = bpm(90);
    let sequence = pattern(3, 8, 72, tempo);
    for step in [1usize, 3, 4, 6, 7] {
        let note = sequence.notes[step];
        assert!(note.is_rest());
        assert_eq!(note.duration_micros(), 166_666);
        assert_eq!(note.bpm(), tempo);
    }
}

#[test]
fn the_pattern_has_as_many_notes_as_steps() {
    for steps in 1u32..=24 {
        for pulses in 1..=steps {
            let sequence = pattern(pulses, steps, 60, bpm(120));
            assert_eq!(sequence.len(), steps as usize);
        }
    }
}

#[test]
fn the_audible_steps_are_the_floor_onsets() {
    for steps in 1u32..=24 {
        for pulses in 1..=steps {
            let sequence = pattern(pulses, steps, 60, bpm(120));
            assert_eq!(audible_steps(&sequence), floor_onsets(pulses, steps));
        }
    }
}

#[test]
fn as_many_notes_sound_as_there_are_pulses() {
    for steps in 1u32..=24 {
        for pulses in 0..=steps {
            let sequence = pattern(pulses, steps, 60, bpm(120));
            assert_eq!(audible_steps(&sequence).len(), pulses as usize);
        }
    }
}

#[test]
fn as_many_pulses_as_steps_leave_no_rest() {
    for steps in [1u32, 2, 7, 16, 64] {
        let sequence = pattern(steps, steps, 60, bpm(120));
        assert_eq!(sequence.len(), steps as usize);
        for note in &sequence.notes {
            assert!(note.is_audible());
            assert_eq!(note.pitch(), 60);
            assert_eq!(note.velocity(), 100);
        }
    }
}

#[test]
fn no_pulse_gives_one_rest_whatever_the_steps() {
    let tempo = bpm(120);
    for steps in [1u32, 8, 16, 1000] {
        let sequence = pattern(0, steps, 60, tempo);
        assert_eq!(sequence.notes, vec![Note::rest(NoteDuration::Sixteenth, tempo)]);
    }
}

#[test]
fn pitch_zero_still_sounds() {
    let sequence = pattern(2, 4, 0, bpm(120));
    assert_eq!(audible_steps(&sequence), vec![0, 2]);
    assert_eq!(sequence.notes[0].pitch(), 0);
    assert_eq!(sequence.notes[0].velocity(), 100);
}

#[test]
fn notes_are_sized_at_the_tempo_given() {
    let slow = pattern(1, 2, 60, bpm(60));
    let fast = pattern(1, 2, 60, bpm(120));
    for note in &slow.notes {
        assert_eq!(note.duration_micros(), 250_000);
        assert_eq!(note.bpm(), bpm(60));
    }
    for note in &fast.notes {
        assert_eq!(note.duration_micros(), 125_000);
        assert_eq!(note.bpm(), bpm(120));
    }
}

#[test]
fn the_kth_pulse_falls_on_k_times_steps_over_pulses() {
    assert_eq!(onset_step(0, 3, 8), 0);
    assert_eq!(onset_step(1, 3, 8), 2);
    assert_eq!(onset_step(2, 3, 8), 5);
    assert_eq!(onset_step(3, 4, 8), 6);
    assert_eq!(onset_step(6, 7, 7), 6);
}

#[test]
fn without_steps_every_pulse_falls_on_zero() {
    assert_eq!(onset_step(0, 1, 0), 0);
    assert_eq!(onset_step(6, 7, 0), 0);
}

#[test]
fn large_patterns_do_not_overflow() {
    assert_eq!(onset_step(u32::MAX - 1, u32::MAX, u32::MAX), u32::MAX - 1);
    assert_eq!(onset_step(1, 2, u32::MAX), 2_147_483_647);
    assert_eq!(onset_step(4_000_000_000, 4_000_000_001, 4_294_967_295), 4_294_967_293);
}

#[test]
fn a_generator_starts_with_four_on_sixteen_at_middle_c() {
    let sequencer = EuclideanSequencer::new();
    assert_eq!(sequencer.config(), config(4, 16, 60));
    assert_eq!(EuclideanSequencerConfig::new(), config(4, 16, 60));
    let sequence = sequencer.generate_sequence(bpm(120));
    assert_eq!(sequence.len(), 16);
    assert_eq!(audible_steps(&sequence), vec![0, 4, 8, 12]);
}

#[test]
fn valid_configurations_are_accepted() {
    assert_eq!(config(0, 1, 0).validate(), Ok(()));
    assert_eq!(config(1, 1, 127).validate(), Ok(()));
    assert_eq!(config(3, 8, 60).validate(), Ok(()));
    assert_eq!(config(u32::MAX, u32::MAX, 60).validate(), Ok(()));
}

#[test]
fn no_steps_are_turned_down() {
    assert_eq!(config(0, 0, 60).validate(), Err(ConfigError::ZeroSteps));
    assert_eq!(config(3, 0, 60).validate(), Err(ConfigError::ZeroSteps));
}

#[test]
fn more_pulses_than_steps_are_turned_down() {
    assert_eq!(config(9, 8, 60).validate(), Err(ConfigError::TooManyPulses));
    assert_eq!(config(2, 1, 60).validate(), Err(ConfigError::TooManyPulses));
}

#[test]
fn a_pitch_above_127_is_turned_down() {
    assert_eq!(config(3, 8, 128).validate(), Err(ConfigError::PitchOutOfRange));
    assert_eq!(config(3, 8, 255).validate(), Err(ConfigError::PitchOutOfRange));
}

#[test]
fn of_several_faults_the_first_is_named() {
    assert_eq!(config(3, 0, 200).validate(), Err(ConfigError::ZeroSteps));
    assert_eq!(config(9, 8, 200).validate(), Err(ConfigError::TooManyPulses));
}

#[test]
fn a_configuration_that_is_turned_down_changes_nothing() {
    let mut sequencer = EuclideanSequencer::new();
    let tempo = bpm(120);
    assert_eq!(
        sequencer.reconfigure(config(3, 0, 60), SLOT_A, tempo),
        Err(SequencerError::Config(ConfigError::ZeroSteps))
    );
    assert_eq!(
        sequencer.reconfigure(config(9, 8, 60), SLOT_A, tempo),
        Err(SequencerError::Config(ConfigError::TooManyPulses))
    );
    assert_eq!(
        sequencer.reconfigure(config(3, 8, 128), SLOT_B, tempo),
        Err(SequencerError::Config(ConfigError::PitchOutOfRange))
    );
    assert_eq!(sequencer, EuclideanSequencer::new());
}

#[test]
fn a_slot_that_does_not_exist_is_turned_down() {
    let mut sequencer = EuclideanSequencer::new();
    assert_eq!(
        sequencer.reconfigure(config(3, 8, 60), 2, bpm(120)),
        Err(SequencerError::InvalidSlot(2))
    );
    assert_eq!(
        sequencer.reconfigure(config(3, 8, 60), usize::MAX, bpm(120)),
        Err(SequencerError::InvalidSlot(usize::MAX))
    );
    assert_eq!(sequencer.config(), config(4, 16, 60));
}

#[test]
fn a_bad_configuration_is_named_before_a_bad_slot() {
    let mut sequencer = EuclideanSequencer::new();
    assert_eq!(
        sequencer.reconfigure(config(9, 8, 60), 7, bpm(120)),
        Err(SequencerError::Config(ConfigError::TooManyPulses))
    );
}

#[test]
fn an_accepted_configuration_is_kept() {
    let mut sequencer = EuclideanSequencer::new();
    let tempo = bpm(120);
    let first = sequencer.reconfigure(config(3, 8, 60), SLOT_B, tempo).unwrap();
    assert_eq!(sequencer.config(), config(3, 8, 60));
    assert_eq!(sequencer.generate_sequence(tempo), first);
    assert_eq!(
        sequencer.reconfigure(config(3, 0, 60), SLOT_B, tempo),
        Err(SequencerError::Config(ConfigError::ZeroSteps))
    );
    assert_eq!(sequencer.config(), config(3, 8, 60));
}

#[test]
fn a_configuration_written_to_slot_a() {
    let mut state = SharedState::new();
    let mut sequencer = EuclideanSequencer::new();
    let mut signals = 0;
    let tempo = state.bpm;
    match sequencer.reconfigure(config(4, 8, 60), SLOT_A, tempo) {
        Ok(sequence) => {
            assert_eq!(state.write_slot(SLOT_A, sequence), Ok(()));
            signals += 1;
        }
        Err(error) => panic!("turned down: {:?}", error),
    }
    assert_eq!(signals, 1);
    let slot = &state.mixer_config.sequence_a;
    assert_eq!(slot.len(), 8);
    for (step, note) in slot.notes.iter().enumerate() {
        if step % 2 == 0 {
            assert_eq!(note.pitch(), 60);
            assert_eq!(note.velocity(), 100);
        } else {
            assert!(note.is_rest());
        }
        assert_eq!(note.duration_micros(), 125_000);
    }
    assert_eq!(state.mixer_config.sequence_b, Sequence::empty());
    assert_eq!(state.sequence, Sequence::empty());
    assert!(!state.playing);
}

#[test]
fn every_accepted_configuration_is_signalled_once_and_no_other() {
    let mut state = SharedState::new();
    let mut sequencer = EuclideanSequencer::new();
    let mut signals = 0;
    let updates = [config(4, 8, 60), config(9, 8, 60), config(3, 8, 62), config(1, 0, 60)];
    for update in updates {
        let tempo = state.bpm;
        if let Ok(sequence) = sequencer.reconfigure(update, SLOT_B, tempo) {
            assert_eq!(state.write_slot(SLOT_B, sequence), Ok(()));
            signals += 1;
        }
    }
    assert_eq!(signals, 2);
    assert_eq!(audible_steps(&state.mixer_config.sequence_b), vec![0, 2, 5]);
    assert_eq!(state.mixer_config.sequence_b.notes[0].pitch(), 62);
    assert_eq!(state.mixer_config.sequence_a, Sequence::empty());
}

fn made_by<S: Sequencer>(sequencer: &S, tempo: Tempo) -> Sequence {
    sequencer.generate_sequence(tempo)
}

#[test]
fn every_note_of_a_generated_pattern_is_sized_at_the_tempo_given() {
    let mut sequencer = EuclideanSequencer::new();
    let tempo = Tempo::from_milli_bpm(133_700).unwrap();
    assert!(sequencer.reconfigure(config(5, 13, 40), SLOT_B, tempo).is_ok());
    let sequence = made_by(&sequencer, tempo);
    assert_eq!(sequence.len(), 13);
    for note in &sequence.notes {
        assert_eq!(note.bpm(), tempo);
        assert_eq!(note.duration_micros(), 112_191);
    }
}

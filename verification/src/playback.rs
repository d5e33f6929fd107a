//! The playback loop, as the decisions it takes.
//!
//! The loop is the one timing authority of a performance, but it keeps no
//! clock here. It is a machine that is told what has just happened (a control
//! message came in, a wait ran out, a command went to the device) and answers
//! with the one thing to do next. Whoever drives it holds the shared state
//! only for the length of one [`PlaybackLoop::step`], never across a wait or a
//! send.
//!
//! One tick of the loop takes at most one control message, then either rests
//! for [`IDLE_MICROS`] (paused, or nothing to play) or plays the next note of
//! the active pattern: note on, hold, note off. A hold can be cut into by a
//! control message; `Shutdown` ends it at once, any other message is applied
//! and the hold goes on to its end. A pause and a new pattern both rewind to
//! the first note.

use crate::input::Input;
use crate::note::Note;
use crate::sequencers::euclidean::EuclideanSequencerInput;
use crate::sequencers::markov::MarkovSequencerInput;
use crate::state::SharedState;
use crate::tempo::Tempo;
use crate::tempo::MAX_MILLI_BPM;
use crate::tempo::MILLI_PER_BPM;
use vstd::prelude::*;

verus! {

/// How long the loop rests before it looks for the next control message when
/// there is nothing to play, in microseconds.
pub const IDLE_MICROS: u64 = 10_000;

/// The most transport failures that the loop counts.
pub const MAX_FAILURES: u64 = 0xffff_ffff_ffff_ffff;

/// Why a control message was turned down.
#[derive(Clone, Copy, Debug, PartialEq, Eq)]
pub enum Rejection {
    /// The tempo asked for is zero.
    ZeroTempo,
    /// One beat per minute more cannot be held.
    TempoTooFast,
    /// One beat per minute less leaves no tempo.
    TempoTooSlow,
}

/// What became of a control message.
#[derive(Clone, Copy, Debug, PartialEq, Eq)]
pub enum Outcome {
    /// The shared state was changed as the message asks.
    Applied,
    /// The message asks the loop to end; the shared state is as it was.
    Shutdown,
    /// The message is for the Euclidean generator and is to be handed on.
    ForwardEuclidean(EuclideanSequencerInput),
    /// The message is for the stochastic generator and is to be handed on.
    ForwardMarkov(MarkovSequencerInput),
    /// The message was turned down; the shared state is as it was.
    Rejected(Rejection),
}

/// What becomes of `input` when the shared state is `state`.
pub open spec fn outcome_of(state: SharedState, input: Input) -> Outcome {
    match input {
        Input::Bpm(milli_bpm) => if milli_bpm > 0 {
            Outcome::Applied
        } else {
            Outcome::Rejected(Rejection::ZeroTempo)
        },
        Input::Sequence(_) => Outcome::Applied,
        Input::Shutdown => Outcome::Shutdown,
        Input::TogglePlayback => Outcome::Applied,
        Input::IncreaseBpm => if state.bpm@ + MILLI_PER_BPM <= MAX_MILLI_BPM {
            Outcome::Applied
        } else {
            Outcome::Rejected(Rejection::TempoTooFast)
        },
        Input::DecreaseBpm => if state.bpm@ > MILLI_PER_BPM {
            Outcome::Applied
        } else {
            Outcome::Rejected(Rejection::TempoTooSlow)
        },
        Input::Euclidean(message) => Outcome::ForwardEuclidean(message),
        Input::Markov(message) => Outcome::ForwardMarkov(message),
    }
}

/// The tempo after `input` was taken at a tempo of `milli_bpm`, both in
/// thousandths of a beat per minute: a tempo that is set is the tempo, a step
/// up or down is one beat per minute, and a message that is turned down, or
/// is about something else, leaves the tempo as it was.
pub open spec fn tempo_after(milli_bpm: nat, input: Input) -> nat {
    match input {
        Input::Bpm(set) => if set > 0 {
            set as nat
        } else {
            milli_bpm
        },
        Input::IncreaseBpm => if milli_bpm + MILLI_PER_BPM <= MAX_MILLI_BPM {
            milli_bpm + MILLI_PER_BPM as nat
        } else {
            milli_bpm
        },
        Input::DecreaseBpm => if milli_bpm > MILLI_PER_BPM {
            (milli_bpm - MILLI_PER_BPM) as nat
        } else {
            milli_bpm
        },
        _ => milli_bpm,
    }
}

/// The shared state after `input` was taken in the state `state`. Only a
/// message that is applied changes it: a new pattern replaces the active one,
/// a toggle flips `playing`, a message about the tempo leaves the tempo that
/// `tempo_after` gives, and nothing else changes.
pub open spec fn applied(state: SharedState, input: Input) -> SharedState {
    if outcome_of(state, input) is Applied {
        match input {
            Input::Sequence(sequence) => SharedState { sequence, ..state },
            Input::TogglePlayback => SharedState { playing: !state.playing, ..state },
            _ => SharedState { bpm: Tempo::of(tempo_after(state.bpm@, input) as int), ..state },
        }
    } else {
        state
    }
}

/// Takes one control message: changes the shared state as the message asks
/// and says what became of it.
///
/// A tempo of zero, and a change by one beat per minute that would leave the
/// range of tempos, is turned down and changes nothing. Messages for a
/// generator are handed back unread. `Shutdown` changes nothing here: ending
/// the loop is the loop's affair.
pub fn apply_input(state: &mut SharedState, input: Input) -> (outcome: Outcome)
    ensures
        outcome == outcome_of(*old(state), input),
        *final(state) == applied(*old(state), input),
        final(state).bpm@ == tempo_after(old(state).bpm@, input),
        final(state).bpm@ > 0,
{
    proof {
        use_type_invariant(&state.bpm);
        state.bpm.lemma_view_in_range();
    }
    match input {
        Input::Bpm(milli_bpm) => match Tempo::from_milli_bpm(milli_bpm) {
            Some(bpm) => {
                state.bpm = bpm;
                Outcome::Applied
            },
            None => Outcome::Rejected(Rejection::ZeroTempo),
        },
        Input::Sequence(sequence) => {
            state.sequence = sequence;
            Outcome::Applied
        },
        Input::Shutdown => Outcome::Shutdown,
        Input::TogglePlayback => {
            state.playing = !state.playing;
            Outcome::Applied
        },
        Input::IncreaseBpm => match state.bpm.faster() {
            Some(bpm) => {
                state.bpm = bpm;
                Outcome::Applied
            },
            None => Outcome::Rejected(Rejection::TempoTooFast),
        },
        Input::DecreaseBpm => match state.bpm.slower() {
            Some(bpm) => {
                state.bpm = bpm;
                Outcome::Applied
            },
            None => Outcome::Rejected(Rejection::TempoTooSlow),
        },
        Input::Euclidean(message) => Outcome::ForwardEuclidean(message),
        Input::Markov(message) => Outcome::ForwardMarkov(message),
    }
}

/// Where the loop stands between two steps.
#[derive(Clone, Copy, Debug, PartialEq, Eq)]
pub enum Phase {
    /// Waiting for a control message, with nothing sounding.
    Listening,
    /// The note-on of this note is on its way to the device.
    Striking(Note),
    /// This note sounds and its hold is running.
    Holding(Note),
    /// The note-off of this note is on its way to the device.
    Releasing(Note),
    /// The all-notes-off that ends the loop is on its way to the device.
    Silencing,
    /// The loop has ended.
    Stopped,
}

/// What has just happened.
#[derive(Clone, Debug, PartialEq, Eq)]
pub enum Event {
    /// This control message came in.
    Message(Input),
    /// The wait ran out and no control message came in.
    Elapsed,
    /// The device took the command.
    Sent,
    /// The device did not take the command.
    SendFailed,
}

/// What is to be done next.
#[derive(Clone, Copy, Debug, PartialEq, Eq)]
pub enum Action {
    /// Wait for a control message, no longer than this many microseconds, and
    /// report `Message` or `Elapsed`. With zero: look once, without waiting.
    Wait { micros: u64 },
    /// Go on with the wait that the last message cut into, to the end it had,
    /// and report `Message` or `Elapsed`.
    Resume,
    /// Send note-on and report `Sent` or `SendFailed`.
    NoteOn { pitch: u8, velocity: u8 },
    /// Send note-off and report `Sent` or `SendFailed`.
    NoteOff { pitch: u8 },
    /// Send all-notes-off and report `Sent` or `SendFailed`.
    AllNotesOff,
    /// End the loop: there is no next step.
    Stop,
}

/// The answer to one event.
#[derive(Clone, Copy, Debug, PartialEq, Eq)]
pub struct Step {
    /// What is to be done next.
    pub action: Action,
    /// What became of the control message, where the event was one.
    pub outcome: Option<Outcome>,
}

/// Why the loop refused an event.
#[derive(Clone, Debug, PartialEq, Eq)]
pub enum PlaybackError {
    /// The event answers nothing that the loop asked for. It comes back as it
    /// was given.
    Unexpected(Event),
}

/// The playback loop between two steps.
#[derive(Clone, Copy, Debug, PartialEq, Eq)]
pub struct PlaybackLoop {
    /// Where the loop stands.
    pub phase: Phase,
    /// The index of the note to play next; past the end of the pattern it
    /// stands for the first.
    pub position: usize,
    /// How many commands the device did not take, counted up to
    /// [`MAX_FAILURES`].
    pub transport_failures: u64,
}

/// Whether `event` answers what a loop in `phase` asked for: a message or the
/// end of the wait while it listens or holds, word from the device while a
/// command is on its way, nothing once it has stopped.
pub open spec fn expects(phase: Phase, event: Event) -> bool {
    match phase {
        Phase::Listening | Phase::Holding(_) => event is Message || event is Elapsed,
        Phase::Striking(_) | Phase::Releasing(_) | Phase::Silencing => event is Sent
            || event is SendFailed,
        Phase::Stopped => false,
    }
}

/// Whether there is a note to play: the state is playing and the active
/// pattern is not empty.
pub open spec fn sounds(state: SharedState) -> bool {
    state.playing && state.sequence@.len() > 0
}

/// The index of the note that a loop at `position` plays next from the active
/// pattern of `state`.
pub open spec fn strike_index(position: usize, state: SharedState) -> int {
    if position < state.sequence@.len() {
        position as int
    } else {
        0
    }
}

/// The loop `machine` after a tick has begun in the state `state`: striking
/// the next note where there is one to play, else rewound and listening.
pub open spec fn ticked(machine: PlaybackLoop, state: SharedState) -> PlaybackLoop {
    if sounds(state) {
        let index = strike_index(machine.position, state);
        PlaybackLoop {
            phase: Phase::Striking(state.sequence@[index]),
            position: (index + 1) as usize,
            ..machine
        }
    } else {
        PlaybackLoop { phase: Phase::Listening, position: 0, ..machine }
    }
}

/// What a loop at `position` does as a tick begins in the state `state`: the
/// note-on of the next note where there is one to play, else a rest.
pub open spec fn tick_action(position: usize, state: SharedState) -> Action {
    if sounds(state) {
        let note = state.sequence@[strike_index(position, state)];
        Action::NoteOn { pitch: note.pitch(), velocity: note.velocity() }
    } else {
        Action::Wait { micros: IDLE_MICROS }
    }
}

/// The loop `machine` after it took the message `input`: rewound by a new
/// pattern, as it was otherwise.
pub open spec fn rewound(machine: PlaybackLoop, input: Input) -> PlaybackLoop {
    if input is Sequence {
        PlaybackLoop { position: 0, ..machine }
    } else {
        machine
    }
}

/// The loop `machine` after word from the device: a failure is counted.
pub open spec fn counted(machine: PlaybackLoop, event: Event) -> PlaybackLoop {
    if event is SendFailed && machine.transport_failures < MAX_FAILURES {
        PlaybackLoop { transport_failures: (machine.transport_failures + 1) as u64, ..machine }
    } else {
        machine
    }
}

/// The loop after `event`, for an event that it expects.
pub open spec fn next_machine(machine: PlaybackLoop, state: SharedState, event: Event) -> PlaybackLoop {
    match machine.phase {
        Phase::Listening => match event {
            Event::Message(input) => if input is Shutdown {
                PlaybackLoop { phase: Phase::Silencing, ..machine }
            } else {
                ticked(rewound(machine, input), applied(state, input))
            },
            _ => ticked(machine, state),
        },
        Phase::Striking(note) => PlaybackLoop { phase: Phase::Holding(note), ..counted(machine, event) },
        Phase::Holding(note) => match event {
            Event::Message(input) => if input is Shutdown {
                PlaybackLoop { phase: Phase::Silencing, ..machine }
            } else {
                rewound(machine, input)
            },
            _ => PlaybackLoop { phase: Phase::Releasing(note), ..machine },
        },
        Phase::Releasing(_) => PlaybackLoop { phase: Phase::Listening, ..counted(machine, event) },
        Phase::Silencing => PlaybackLoop { phase: Phase::Stopped, ..counted(machine, event) },
        Phase::Stopped => machine,
    }
}

/// The shared state after `event`, for an event that the loop expects: a
/// message is applied, nothing else touches the state.
pub open spec fn next_state(state: SharedState, event: Event) -> SharedState {
    match event {
        Event::Message(input) => applied(state, input),
        _ => state,
    }
}

/// What the loop does next after `event`, for an event that it expects.
pub open spec fn next_action(machine: PlaybackLoop, state: SharedState, event: Event) -> Action {
    match machine.phase {
        Phase::Listening => match event {
            Event::Message(input) => if input is Shutdown {
                Action::AllNotesOff
            } else {
                tick_action(rewound(machine, input).position, applied(state, input))
            },
            _ => tick_action(machine.position, state),
        },
        Phase::Striking(note) => Action::Wait { micros: note.duration_micros() },
        Phase::Holding(note) => match event {
            Event::Message(input) => if input is Shutdown {
                Action::AllNotesOff
            } else {
                Action::Resume
            },
            _ => Action::NoteOff { pitch: note.pitch() },
        },
        Phase::Releasing(_) => Action::Wait { micros: 0 },
        Phase::Silencing => Action::Stop,
        Phase::Stopped => Action::Stop,
    }
}

/// What became of the message in `event`, where it is one.
pub open spec fn next_outcome(state: SharedState, event: Event) -> Option<Outcome> {
    match event {
        Event::Message(input) => Some(outcome_of(state, input)),
        _ => None,
    }
}

/// The playback loop before its first step: listening, at the first note,
/// with no failure counted. Its first action is to look for a control
/// message without waiting.
pub fn start_playback_loop() -> (started: (PlaybackLoop, Action))
    ensures
        started.0 == (PlaybackLoop { phase: Phase::Listening, position: 0, transport_failures: 0 }),
        started.1 == (Action::Wait { micros: 0 }),
{
    (
        PlaybackLoop { phase: Phase::Listening, position: 0, transport_failures: 0 },
        Action::Wait { micros: 0 },
    )
}

impl PlaybackLoop {
    /// Whether `event` answers what the loop asked for.
    pub fn expects(&self, event: &Event) -> (expected: bool)
        ensures
            expected == expects(self.phase, *event),
    {
        match self.phase {
            Phase::Listening | Phase::Holding(_) => match event {
                Event::Message(_) | Event::Elapsed => true,
                _ => false,
            },
            Phase::Striking(_) | Phase::Releasing(_) | Phase::Silencing => match event {
                Event::Sent | Event::SendFailed => true,
                _ => false,
            },
            Phase::Stopped => false,
        }
    }

    /// Takes one event and says what is to be done next.
    ///
    /// An event that the loop expects moves it on: a control message is
    /// applied to the shared state and reported in the step's outcome, and
    /// nothing else touches the state. A command that the device did not take
    /// is counted and changes nothing else: the loop goes on as if it had
    /// been taken. Any other event is refused and handed back, and neither
    /// the loop nor the state changes; a loop that has stopped refuses every
    /// event.
    pub fn step(&mut self, state: &mut SharedState, event: Event) -> (result: Result<
        Step,
        PlaybackError,
    >)
        ensures
            expects(old(self).phase, event) ==> {
                &&& result == Ok::<Step, PlaybackError>(
                    Step {
                        action: next_action(*old(self), *old(state), event),
                        outcome: next_outcome(*old(state), event),
                    },
                )
                &&& *final(self) == next_machine(*old(self), *old(state), event)
                &&& *final(state) == next_state(*old(state), event)
            },
            !expects(old(self).phase, event) ==> {
                &&& result == Err::<Step, PlaybackError>(PlaybackError::Unexpected(event))
                &&& *final(self) == *old(self)
                &&& *final(state) == *old(state)
            },
    {
        if !self.expects(&event) {
            return Err(PlaybackError::Unexpected(event));
        }
        match event {
            Event::Message(input) => {
                let rewinds = match &input {
                    Input::Sequence(_) => true,
                    _ => false,
                };
                let listening = match self.phase {
                    Phase::Listening => true,
                    _ => false,
                };
                let outcome = apply_input(state, input);
                let action = match outcome {
                    Outcome::Shutdown => {
                        self.phase = Phase::Silencing;
                        Action::AllNotesOff
                    },
                    _ => {
                        if rewinds {
                            self.position = 0;
                        }
                        if listening {
                            self.tick(state)
                        } else {
                            Action::Resume
                        }
                    },
                };
                Ok(Step { action, outcome: Some(outcome) })
            },
            Event::Elapsed => {
                let action = match self.phase {
                    Phase::Holding(note) => {
                        self.phase = Phase::Releasing(note);
                        Action::NoteOff { pitch: note.pitch() }
                    },
                    _ => self.tick(state),
                };
                Ok(Step { action, outcome: None })
            },
            Event::Sent | Event::SendFailed => {
                let failed = match event {
                    Event::SendFailed => true,
                    _ => false,
                };
                if failed && self.transport_failures < MAX_FAILURES {
                    self.transport_failures = self.transport_failures + 1;
                }
                let action = match self.phase {
                    Phase::Striking(note) => {
                        self.phase = Phase::Holding(note);
                        Action::Wait { micros: note.duration_micros() }
                    },
                    Phase::Releasing(_) => {
                        self.phase = Phase::Listening;
                        Action::Wait { micros: 0 }
                    },
                    _ => {
                        self.phase = Phase::Stopped;
                        Action::Stop
                    },
                };
                Ok(Step { action, outcome: None })
            },
        }
    }

    /// Begins a tick: strikes the next note of the active pattern where there
    /// is one to play, else rewinds and rests.
    fn tick(&mut self, state: &SharedState) -> (action: Action)
        ensures
            *final(self) == ticked(*old(self), *state),
            action == tick_action(old(self).position, *state),
    {
        let len = state.sequence.len();
        if state.playing && len > 0 {
            let index = if self.position < len {
                self.position
            } else {
                0
            };
            let note = state.sequence.notes[index];
            self.phase = Phase::Striking(note);
            self.position = index + 1;
            Action::NoteOn { pitch: note.pitch(), velocity: note.velocity() }
        } else {
            self.phase = Phase::Listening;
            self.position = 0;
            Action::Wait { micros: IDLE_MICROS }
        }
    }
}

/// The loop and the shared state after the events `events`, taken one after
/// the other from `machine` and `state`. An event that the loop refuses
/// changes nothing.
pub open spec fn run(machine: PlaybackLoop, state: SharedState, events: Seq<Event>) -> (
    PlaybackLoop,
    SharedState,
)
    decreases events.len(),
{
    if events.len() == 0 {
        (machine, state)
    } else if expects(machine.phase, events[0]) {
        run(
            next_machine(machine, state, events[0]),
            next_state(state, events[0]),
            events.skip(1),
        )
    } else {
        run(machine, state, events.skip(1))
    }
}

/// The actions with which the loop answers the events `events`, taken one
/// after the other from `machine` and `state`. An event that the loop refuses
/// has no answer.
pub open spec fn answers(machine: PlaybackLoop, state: SharedState, events: Seq<Event>) -> Seq<
    Action,
>
    decreases events.len(),
{
    if events.len() == 0 {
        Seq::<Action>::empty()
    } else if expects(machine.phase, events[0]) {
        seq![next_action(machine, state, events[0])] + answers(
            next_machine(machine, state, events[0]),
            next_state(state, events[0]),
            events.skip(1),
        )
    } else {
        answers(machine, state, events.skip(1))
    }
}

/// The tempo after a message is what `tempo_after` says, and is a tempo: it
/// is not zero.
pub proof fn lemma_tempo_after_message(state: SharedState, input: Input)
    requires
        state.bpm.wf(),
    ensures
        applied(state, input).bpm.wf(),
        applied(state, input).bpm@ == tempo_after(state.bpm@, input),
        tempo_after(state.bpm@, input) > 0,
{
    state.bpm.lemma_view_in_range();
    Tempo::lemma_of(tempo_after(state.bpm@, input) as int);
}

/// The tempo is positive at all times: whatever events the loop takes, the
/// tempo of the shared state is never zero.
pub proof fn lemma_tempo_stays_positive(machine: PlaybackLoop, state: SharedState, events: Seq<Event>)
    requires
        state.bpm.wf(),
    ensures
        run(machine, state, events).1.bpm.wf(),
        run(machine, state, events).1.bpm@ > 0,
    decreases events.len(),
{
    state.bpm.lemma_view_in_range();
    if events.len() > 0 {
        let first = events[0];
        let rest = events.skip(1);
        if expects(machine.phase, first) {
            if let Event::Message(input) = first {
                lemma_tempo_after_message(state, input);
            }
            lemma_tempo_stays_positive(
                next_machine(machine, state, first),
                next_state(state, first),
                rest,
            );
        } else {
            lemma_tempo_stays_positive(machine, state, rest);
        }
    }
}

/// The loop writes no generator's slot: whatever events it takes, both slots
/// hold what they held.
pub proof fn lemma_loop_leaves_slots_alone(machine: PlaybackLoop, state: SharedState, events: Seq<Event>)
    ensures
        run(machine, state, events).1.mixer_config == state.mixer_config,
    decreases events.len(),
{
    if events.len() > 0 {
        let first = events[0];
        let rest = events.skip(1);
        if expects(machine.phase, first) {
            lemma_loop_leaves_slots_alone(
                next_machine(machine, state, first),
                next_state(state, first),
                rest,
            );
        } else {
            lemma_loop_leaves_slots_alone(machine, state, rest);
        }
    }
}

/// Toggling play twice gives back the state that was there, and in between
/// the state is the other of playing and paused.
pub proof fn lemma_toggle_twice_restores(state: SharedState)
    ensures
        applied(state, Input::TogglePlayback).playing == !state.playing,
        applied(applied(state, Input::TogglePlayback), Input::TogglePlayback) == state,
        outcome_of(state, Input::TogglePlayback) == Outcome::Applied,
{
}

/// The loop strikes no note while the state is paused: whatever the event,
/// where the state is paused after the step, the step's action is no
/// note-on.
pub proof fn lemma_paused_loop_strikes_no_note(machine: PlaybackLoop, state: SharedState, event: Event)
    requires
        expects(machine.phase, event),
        !next_state(state, event).playing,
    ensures
        !(next_action(machine, state, event) is NoteOn),
{
}

/// Between two toggles that pause and resume the loop, no note is struck:
/// after the first toggle the state is paused, and whatever events come in
/// that leave it paused, none is answered with a note-on.
pub proof fn lemma_no_note_between_toggles(machine: PlaybackLoop, state: SharedState, events: Seq<Event>)
    requires
        !state.playing,
        forall|i: int| 0 <= i < events.len() ==> !(#[trigger] events[i] matches Event::Message(input)
            && (input is TogglePlayback)),
    ensures
        !run(machine, state, events).1.playing,
        forall|i: int|
            0 <= i < answers(machine, state, events).len() ==> !(#[trigger] answers(
                machine,
                state,
                events,
            )[i] is NoteOn),
    decreases events.len(),
{
    if events.len() > 0 {
        let rest = events.skip(1);
        assert forall|i: int| 0 <= i < rest.len() implies !(#[trigger] rest[i] matches Event::Message(
            input,
        ) && (input is TogglePlayback)) by {
            assert(rest[i] == events[i + 1]);
        }
        let first = events[0];
        if expects(machine.phase, first) {
            let then_machine = next_machine(machine, state, first);
            let then_state = next_state(state, first);
            lemma_no_note_between_toggles(then_machine, then_state, rest);
            let tail = answers(then_machine, then_state, rest);
            assert forall|i: int| 0 <= i < answers(machine, state, events).len() implies !(
            #[trigger] answers(machine, state, events)[i] is NoteOn) by {
                if i > 0 {
                    assert(answers(machine, state, events)[i] == tail[i - 1]);
                }
            }
        } else {
            lemma_no_note_between_toggles(machine, state, rest);
        }
    }
}

/// A shutdown is answered at once, wherever a message can come in: with
/// all-notes-off, and with nothing changed in the shared state.
pub proof fn lemma_shutdown_silences(machine: PlaybackLoop, state: SharedState)
    requires
        machine.phase is Listening || machine.phase is Holding,
    ensures
        expects(machine.phase, Event::Message(Input::Shutdown)),
        next_action(machine, state, Event::Message(Input::Shutdown)) == Action::AllNotesOff,
        next_machine(machine, state, Event::Message(Input::Shutdown)).phase == Phase::Silencing,
        next_state(state, Event::Message(Input::Shutdown)) == state,
{
}

/// All-notes-off is sent for a shutdown and for nothing else.
pub proof fn lemma_all_notes_off_means_shutdown(machine: PlaybackLoop, state: SharedState, event: Event)
    requires
        expects(machine.phase, event),
        next_action(machine, state, event) == Action::AllNotesOff,
    ensures
        event == Event::Message(Input::Shutdown),
        next_machine(machine, state, event).phase == Phase::Silencing,
{
}

/// Once a shutdown has been taken the loop ends and stays ended: whatever
/// events follow, the one answer it still gives is `Stop`, it never leaves
/// the two last phases, and the shared state stays as it is.
pub proof fn lemma_shutdown_is_final(machine: PlaybackLoop, state: SharedState, events: Seq<Event>)
    requires
        machine.phase is Silencing || machine.phase is Stopped,
    ensures
        run(machine, state, events).0.phase is Silencing || run(machine, state, events).0.phase is Stopped,
        run(machine, state, events).1 == state,
        answers(machine, state, events).len() <= 1,
        forall|i: int|
            0 <= i < answers(machine, state, events).len() ==> #[trigger] answers(
                machine,
                state,
                events,
            )[i] == Action::Stop,
        machine.phase is Stopped ==> answers(machine, state, events).len() == 0,
    decreases events.len(),
{
    if events.len() > 0 {
        let first = events[0];
        let rest = events.skip(1);
        if expects(machine.phase, first) {
            lemma_shutdown_is_final(next_machine(machine, state, first), next_state(state, first), rest);
        } else {
            lemma_shutdown_is_final(machine, state, rest);
        }
    }
}

/// All-notes-off is the last word to the device: in any run of the loop,
/// whatever is answered after an all-notes-off is `Stop`. So the device is
/// silenced at most once, and no note is struck afterwards.
pub proof fn lemma_all_notes_off_is_last(machine: PlaybackLoop, state: SharedState, events: Seq<Event>)
    ensures
        forall|i: int, j: int|
            0 <= i < j < answers(machine, state, events).len() && #[trigger] answers(
                machine,
                state,
                events,
            )[i] == Action::AllNotesOff ==> #[trigger] answers(machine, state, events)[j]
                == Action::Stop,
    decreases events.len(),
{
    if events.len() > 0 {
        let first = events[0];
        let rest = events.skip(1);
        if expects(machine.phase, first) {
            let then_machine = next_machine(machine, state, first);
            let then_state = next_state(state, first);
            let tail = answers(then_machine, then_state, rest);
            lemma_all_notes_off_is_last(then_machine, then_state, rest);
            if next_action(machine, state, first) == Action::AllNotesOff {
                lemma_all_notes_off_means_shutdown(machine, state, first);
                lemma_shutdown_is_final(then_machine, then_state, rest);
            }
            assert forall|i: int, j: int|
                0 <= i < j < answers(machine, state, events).len() && #[trigger] answers(
                    machine,
                    state,
                    events,
                )[i] == Action::AllNotesOff implies #[trigger] answers(machine, state, events)[j]
                == Action::Stop by {
                assert(answers(machine, state, events)[j] == tail[j - 1]);
                if i > 0 {
                    assert(answers(machine, state, events)[i] == tail[i - 1]);
                }
            }
        } else {
            lemma_all_notes_off_is_last(machine, state, rest);
        }
    }
}

/// A command that the device did not take is counted and changes nothing
/// else: the loop goes on as it does when the command was taken.
pub proof fn lemma_failure_is_only_counted(machine: PlaybackLoop, state: SharedState)
    requires
        expects(machine.phase, Event::SendFailed),
    ensures
        expects(machine.phase, Event::Sent),
        next_action(machine, state, Event::SendFailed) == next_action(machine, state, Event::Sent),
        next_state(state, Event::SendFailed) == state,
        next_machine(machine, state, Event::SendFailed) == (PlaybackLoop {
            transport_failures: next_machine(machine, state, Event::SendFailed).transport_failures,
            ..next_machine(machine, state, Event::Sent)
        }),
        machine.transport_failures < MAX_FAILURES ==> next_machine(
            machine,
            state,
            Event::SendFailed,
        ).transport_failures == machine.transport_failures + 1,
{
}

/// Left alone while there is a note to play, the loop plays the notes of the
/// active pattern in order and starts over after the last: at a tick it
/// sends the note-on of the note at its position, holds for that note's
/// duration, sends its note-off and looks for a message, and then stands at
/// the note that follows, which after the last note is the first.
pub proof fn lemma_plays_notes_in_order(machine: PlaybackLoop, state: SharedState)
    requires
        machine.phase is Listening,
        sounds(state),
    ensures
        ({
            let index = strike_index(machine.position, state);
            let note = state.sequence@[index];
            let cycle = seq![Event::Elapsed, Event::Sent, Event::Elapsed, Event::Sent];
            &&& answers(machine, state, cycle) == seq![
                Action::NoteOn { pitch: note.pitch(), velocity: note.velocity() },
                Action::Wait { micros: note.duration_micros() },
                Action::NoteOff { pitch: note.pitch() },
                Action::Wait { micros: 0 },
            ]
            &&& run(machine, state, cycle).0.phase is Listening
            &&& run(machine, state, cycle).1 == state
            &&& strike_index(run(machine, state, cycle).0.position, state) == (index + 1)
                % (state.sequence@.len() as int)
        }),
{
    let index = strike_index(machine.position, state);
    let note = state.sequence@[index];
    let cycle = seq![Event::Elapsed, Event::Sent, Event::Elapsed, Event::Sent];
    reveal_with_fuel(run, 5);
    reveal_with_fuel(answers, 5);
    assert(cycle.skip(1).skip(1).skip(1).skip(1).len() == 0);
    assert(answers(machine, state, cycle) =~= seq![
        Action::NoteOn { pitch: note.pitch(), velocity: note.velocity() },
        Action::Wait { micros: note.duration_micros() },
        Action::NoteOff { pitch: note.pitch() },
        Action::Wait { micros: 0 },
    ]);
    let len = state.sequence@.len() as int;
    assert(state.sequence.notes.len() == len);
    if index + 1 < len {
        vstd::arithmetic::div_mod::lemma_small_mod((index + 1) as nat, len as nat);
    } else {
        vstd::arithmetic::div_mod::lemma_mod_self_0(len);
    }
}

} // verus!

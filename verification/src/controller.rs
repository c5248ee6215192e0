//! The theremin's controller: it turns positions into parameters, remembers
//! the last ones while the sound is muted, and publishes what is to be heard
//! to the tone generator.
//!
//! The controller has two states, sounding and muted, and starts sounding.
//! The audio device is not its business: whoever owns the device plays the
//! generator that `audio_source` hands out, and halts the device when the
//! controller has been stopped.

use vstd::prelude::*;
use crate::mapper::{amplitude_at, amplitude_for, bin_of, frequency_at, frequency_for};
use crate::mapper::{is_mapping_of, map_position_to_audio, note_of_bin, on_axis};
use crate::oscillator::ThereminState;
use crate::source::ThereminSource;

verus! {

/// The sample rate of the controller's generator, in samples a second.
pub const SAMPLE_RATE: u32 = 44_100;

/// The volume at which the device is to play the generator, in thousandths.
pub const OUTPUT_VOLUME: i64 = 700;

/// What a controller knows: the parameters that it published last, the
/// parameters of the last position, and whether it has been stopped.
#[derive(Clone, Copy, Debug, PartialEq, Eq, Structural)]
pub struct ControllerState {
    /// What the generator plays.
    pub live: ThereminState,
    /// The amplitude of the last position, heard or not.
    pub last_amplitude: i64,
    /// The frequency of the last position, heard or not.
    pub last_frequency: i64,
    /// Whether the output has been halted for good.
    pub stopped: bool,
}

/// Whether an amplitude is one that a position maps to.
pub open spec fn is_bin_amplitude(amplitude: int) -> bool {
    100 <= amplitude <= 1000 && amplitude % 100 == 0
}

/// Whether a frequency is a note of the scale.
pub open spec fn is_note(frequency: int) -> bool {
    exists|k: int| 0 <= k < 10 && frequency == #[trigger] note_of_bin(k)
}

/// Whether parameters are such as positions map to.
pub open spec fn on_scale(state: ThereminState) -> bool {
    is_bin_amplitude(state.amplitude as int) && is_note(state.frequency as int)
}

/// The pairs of amplitude and frequency that positions map to: every
/// amplitude of a bin with every note of the scale.
pub open spec fn scale_pairs() -> Set<(i64, i64)> {
    Set::new(|pair: (i64, i64)| is_bin_amplitude(pair.0 as int) && is_note(pair.1 as int))
}

/// Whether what is played is the last position's parameters.
pub open spec fn in_step(state: ControllerState) -> bool {
    state.live.amplitude == state.last_amplitude && state.live.frequency == state.last_frequency
}

/// What holds of every controller: while it sounds, what is played is the
/// last position's parameters; and all its parameters are on the scale.
pub open spec fn coherent(state: ControllerState) -> bool {
    &&& state.live.enabled ==> in_step(state)
    &&& on_scale(state.live)
    &&& is_bin_amplitude(state.last_amplitude as int)
    &&& is_note(state.last_frequency as int)
}

/// The state of a new controller: sounding, at half amplitude, on A4.
pub open spec fn initial() -> ControllerState {
    ControllerState {
        live: ThereminState { amplitude: 500, frequency: 440_000, enabled: true },
        last_amplitude: 500,
        last_frequency: 440_000,
        stopped: false,
    }
}

/// The state after a position: its parameters are remembered, and played
/// if the controller sounds.
pub open spec fn updated(state: ControllerState, x: int, y: int) -> ControllerState {
    let amplitude = amplitude_at(x) as i64;
    let frequency = frequency_at(y) as i64;
    ControllerState {
        live: if state.live.enabled {
            ThereminState { amplitude, frequency, enabled: true }
        } else {
            state.live
        },
        last_amplitude: amplitude,
        last_frequency: frequency,
        stopped: state.stopped,
    }
}

/// The state after a toggle: a sounding controller is muted and keeps what
/// it has; a muted one sounds again, with the last position's parameters.
pub open spec fn toggled(state: ControllerState) -> ControllerState {
    ControllerState {
        live: if state.live.enabled {
            ThereminState { enabled: false, ..state.live }
        } else {
            ThereminState {
                amplitude: state.last_amplitude,
                frequency: state.last_frequency,
                enabled: true,
            }
        },
        ..state
    }
}

/// The state after a stop.
pub open spec fn halted(state: ControllerState) -> ControllerState {
    ControllerState { stopped: true, ..state }
}

/// Every position maps to parameters on the scale.
pub proof fn lemma_mapping_is_on_scale(x: int, y: int)
    ensures
        is_bin_amplitude(amplitude_at(x)),
        is_note(frequency_at(y)),
        100 <= amplitude_at(x) <= 1000,
        130_810 <= frequency_at(y) <= 440_000,
{
    let j = if on_axis(y) {
        bin_of(y)
    } else {
        9
    };
    assert(0 <= j < 10 && frequency_at(y) == note_of_bin(j));
}

/// The pairs of the scale are the parameters of the positions, all of them
/// and no others: each pair is what some position on the axes maps to.
pub proof fn lemma_scale_pairs_are_mappings(pair: (i64, i64))
    requires
        scale_pairs().contains(pair),
    ensures
        exists|x: int, y: int|
            on_axis(x) && on_axis(y) && #[trigger] amplitude_at(x) == pair.0
                && #[trigger] frequency_at(y) == pair.1,
{
    let k = choose|k: int| 0 <= k < 10 && pair.1 as int == #[trigger] note_of_bin(k);
    let x = pair.0 as int * 2 - 1200;
    let y = 200 * k - 1000;
    assert(bin_of(y) == k);
    assert(amplitude_at(x) == pair.0 && frequency_at(y) == pair.1);
}

/// A new controller is coherent.
pub proof fn lemma_initial_is_coherent()
    ensures
        coherent(initial()),
{
    lemma_mapping_is_on_scale(-100, 1000);
    assert(amplitude_at(-100) == 500);
    assert(frequency_at(1000) == 440_000);
}

/// Positions, toggles and stops keep a controller coherent.
pub proof fn lemma_steps_keep_coherent(state: ControllerState, x: int, y: int)
    requires
        coherent(state),
    ensures
        coherent(updated(state, x, y)),
        coherent(toggled(state)),
        coherent(halted(state)),
{
    lemma_mapping_is_on_scale(x, y);
}

/// Two toggles bring a controller back to where it was, provided that what
/// it plays is the last position's parameters: the generator has the same
/// amplitude and frequency and is enabled or not as before, and what is
/// remembered has not moved.
pub proof fn lemma_toggle_twice(state: ControllerState)
    requires
        in_step(state),
    ensures
        toggled(toggled(state)) == state,
{
}

/// A sounding controller is in step, so two toggles bring it back to where
/// it was.
pub proof fn lemma_toggle_twice_sounding(state: ControllerState)
    requires
        coherent(state),
        state.live.enabled,
    ensures
        toggled(toggled(state)) == state,
{
}

/// Whatever the state, two toggles leave what is remembered and whether the
/// controller sounds as they were.
pub proof fn lemma_toggle_twice_keeps_memory(state: ControllerState)
    ensures
        toggled(toggled(state)).last_amplitude == state.last_amplitude,
        toggled(toggled(state)).last_frequency == state.last_frequency,
        toggled(toggled(state)).live.enabled == state.live.enabled,
        toggled(toggled(state)).stopped == state.stopped,
{
}

/// A position that arrives while the controller is muted is not heard, is
/// remembered, and is what plays as soon as the controller sounds again.
pub proof fn lemma_muted_update_is_heard_on_unmute(state: ControllerState, x: int, y: int)
    requires
        !state.live.enabled,
    ensures
        updated(state, x, y).live == state.live,
        toggled(updated(state, x, y)).live == (ThereminState {
            amplitude: amplitude_at(x) as i64,
            frequency: frequency_at(y) as i64,
            enabled: true,
        }),
{
}

/// Muting does not touch the parameters: a muted controller keeps playing
/// parameters, silently, that it had when it was muted.
pub proof fn lemma_mute_keeps_parameters(state: ControllerState)
    requires
        state.live.enabled,
    ensures
        toggled(state).live == (ThereminState { enabled: false, ..state.live }),
        toggled(state).last_amplitude == state.last_amplitude,
        toggled(state).last_frequency == state.last_frequency,
{
}

/// A stopped controller stays stopped.
pub proof fn lemma_stop_is_final(state: ControllerState, x: int, y: int)
    requires
        state.stopped,
    ensures
        updated(state, x, y).stopped,
        toggled(state).stopped,
        halted(state).stopped,
{
}

impl ControllerState {
    /// The state of a new controller.
    pub fn new() -> (state: ControllerState)
        ensures
            state == initial(),
    {
        ControllerState {
            live: ThereminState { amplitude: 500, frequency: 440_000, enabled: true },
            last_amplitude: 500,
            last_frequency: 440_000,
            stopped: false,
        }
    }

    /// The state after a position.
    pub fn update(self, x: i64, y: i64) -> (next: ControllerState)
        ensures
            next == updated(self, x as int, y as int),
    {
        proof {
            lemma_mapping_is_on_scale(x as int, y as int);
        }
        let amplitude = amplitude_for(x);
        let frequency = frequency_for(y);
        ControllerState {
            live: if self.live.enabled {
                ThereminState { amplitude, frequency, enabled: true }
            } else {
                self.live
            },
            last_amplitude: amplitude,
            last_frequency: frequency,
            stopped: self.stopped,
        }
    }

    /// The state after a toggle.
    pub fn toggle(self) -> (next: ControllerState)
        ensures
            next == toggled(self),
    {
        ControllerState {
            live: if self.live.enabled {
                ThereminState {
                    amplitude: self.live.amplitude,
                    frequency: self.live.frequency,
                    enabled: false,
                }
            } else {
                ThereminState {
                    amplitude: self.last_amplitude,
                    frequency: self.last_frequency,
                    enabled: true,
                }
            },
            last_amplitude: self.last_amplitude,
            last_frequency: self.last_frequency,
            stopped: self.stopped,
        }
    }

    /// The state after a stop.
    pub fn halt(self) -> (next: ControllerState)
        ensures
            next == halted(self),
    {
        ControllerState {
            live: self.live,
            last_amplitude: self.last_amplitude,
            last_frequency: self.last_frequency,
            stopped: true,
        }
    }
}

/// The controller of one theremin.
pub struct ThereminController {
    source: ThereminSource,
    state: ControllerState,
}

impl View for ThereminController {
    type V = ControllerState;

    closed spec fn view(&self) -> ControllerState {
        self.state
    }
}

impl ThereminController {
    #[verifier::type_invariant]
    spec fn well_formed(&self) -> bool {
        &&& coherent(self.state)
        &&& self.source.keeps_to_pairs(scale_pairs())
        &&& self.source.rate() == SAMPLE_RATE
    }

    /// Whether a generator plays what this controller publishes: it shares
    /// its parameters with the controller's own generator.
    pub closed spec fn feeds(&self, source: &ThereminSource) -> bool {
        source.shares_with(&self.source)
    }

    /// A controller that sounds, at half amplitude, on A4.
    pub fn new() -> (controller: ThereminController)
        ensures
            controller@ == initial(),
            coherent(controller@),
    {
        proof {
            lemma_initial_is_coherent();
        }
        let state = ControllerState::new();
        let source = ThereminSource::with_pairs(
            state.live.amplitude,
            state.live.frequency,
            SAMPLE_RATE,
            Ghost(scale_pairs()),
        );
        ThereminController { source, state }
    }

    /// The parameters of a position: its frequency and its amplitude.
    pub fn map_position_to_audio(x: i64, y: i64) -> (parameters: (i64, i64))
        ensures
            is_mapping_of(x as int, y as int, parameters),
    {
        map_position_to_audio(x, y)
    }

    /// Takes a position: its parameters are remembered, and published to the
    /// generator if the controller sounds.
    pub fn update_from_position(&mut self, x: i64, y: i64)
        ensures
            final(self)@ == updated(old(self)@, x as int, y as int),
            coherent(final(self)@),
            forall|source: ThereminSource|
                final(self).feeds(&source) == old(self).feeds(&source),
    {
        proof {
            use_type_invariant(&*self);
            lemma_steps_keep_coherent(self.state, x as int, y as int);
        }
        let next = self.state.update(x, y);
        if next.live.enabled {
            self.source.publish(next.live);
        }
        self.state = next;
    }

    /// Mutes a sounding controller; makes a muted one sound again, with the
    /// parameters of the last position.
    pub fn toggle_sound(&mut self)
        ensures
            final(self)@ == toggled(old(self)@),
            coherent(final(self)@),
            forall|source: ThereminSource|
                final(self).feeds(&source) == old(self).feeds(&source),
    {
        proof {
            use_type_invariant(&*self);
            lemma_steps_keep_coherent(self.state, 0, 0);
        }
        let next = self.state.toggle();
        self.source.publish(next.live);
        self.state = next;
    }

    /// Whether the controller sounds.
    pub fn is_enabled(&self) -> (enabled: bool)
        ensures
            enabled == self@.live.enabled,
    {
        self.state.live.enabled
    }

    /// The frequency that the generator plays, in millihertz.
    pub fn get_frequency(&self) -> (frequency: i64)
        ensures
            frequency == self@.live.frequency,
            130_810 <= frequency <= 440_000,
    {
        proof {
            use_type_invariant(self);
        }
        self.state.live.frequency
    }

    /// The amplitude that the generator plays, in thousandths.
    pub fn get_amplitude(&self) -> (amplitude: i64)
        ensures
            amplitude == self@.live.amplitude,
            100 <= amplitude <= 1000,
    {
        proof {
            use_type_invariant(self);
        }
        self.state.live.amplitude
    }

    /// Marks the output as halted for good. The parameters stay as they are.
    pub fn stop(&mut self)
        ensures
            final(self)@ == halted(old(self)@),
            coherent(final(self)@),
            forall|source: ThereminSource|
                final(self).feeds(&source) == old(self).feeds(&source),
    {
        proof {
            use_type_invariant(&*self);
        }
        self.state = self.state.halt();
    }

    /// Whether the controller has been stopped.
    pub fn is_stopped(&self) -> (stopped: bool)
        ensures
            stopped == self@.stopped,
    {
        self.state.stopped
    }

    /// The controller's state.
    pub fn state(&self) -> (state: ControllerState)
        ensures
            state == self@,
            coherent(state),
    {
        proof {
            use_type_invariant(self);
        }
        self.state
    }

    /// A generator for the audio device. It shares its parameters with the
    /// controller and will only ever read an amplitude and a frequency that
    /// form a pair of the scale.
    pub fn audio_source(&self) -> (source: ThereminSource)
        ensures
            self.feeds(&source),
            source.keeps_to_pairs(scale_pairs()),
            forall|state: ThereminState| #[trigger] source.admits(state) == on_scale(state),
            source.rate() == SAMPLE_RATE,
            source.phase() == 0,
    {
        proof {
            use_type_invariant(self);
        }
        self.source.clone()
    }
}

} // verus!

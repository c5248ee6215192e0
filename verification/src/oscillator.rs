//! The arithmetic of the tone generator: how the phase moves from one sample
//! to the next, and how a sine value becomes a sample.
//!
//! Frequencies are in millihertz. The phase counts millihertz-samples: each
//! sample adds the frequency to it, and a full turn is a thousand times the
//! sample rate, so that the angle of a phase `p` is `2 * pi * p / period`.
//! Amplitudes are in thousandths; sine values and samples in millionths.

use vstd::prelude::*;
use vstd::arithmetic::div_mod::lemma_add_mod_noop;
use vstd::arithmetic::div_mod::lemma_fundamental_div_mod;
use vstd::arithmetic::div_mod::lemma_fundamental_div_mod_converse;
use vstd::arithmetic::div_mod::lemma_mod_bound;
use vstd::arithmetic::div_mod::lemma_small_mod;

verus! {

/// The largest magnitude of a sample: eight tenths of full scale.
pub const SAMPLE_LIMIT: i32 = 800_000;

/// The parameters of the tone, as they are shared between the thread that
/// sets them and the thread that plays them.
#[derive(Clone, Copy, Debug, PartialEq, Eq, Structural)]
pub struct ThereminState {
    /// Loudness, in thousandths of full scale.
    pub amplitude: i64,
    /// Pitch, in millihertz.
    pub frequency: i64,
    /// Whether the tone sounds at all.
    pub enabled: bool,
}

/// The state after amplitude and frequency are set: the two are stored as
/// they are given, and the tone stays enabled or disabled as it was.
pub open spec fn retuned(state: ThereminState, amplitude: i64, frequency: i64) -> ThereminState {
    ThereminState { amplitude, frequency, enabled: state.enabled }
}

/// The state after the tone is enabled or disabled: amplitude and frequency
/// stay as they were.
pub open spec fn switched(state: ThereminState, enabled: bool) -> ThereminState {
    ThereminState { amplitude: state.amplitude, frequency: state.frequency, enabled }
}

impl ThereminState {
    /// This state with another amplitude and frequency.
    pub fn with_parameters(self, amplitude: i64, frequency: i64) -> (next: ThereminState)
        ensures
            next == retuned(self, amplitude, frequency),
    {
        ThereminState { amplitude, frequency, enabled: self.enabled }
    }

    /// This state with the tone enabled or disabled.
    pub fn with_enabled(self, enabled: bool) -> (next: ThereminState)
        ensures
            next == switched(self, enabled),
    {
        ThereminState { amplitude: self.amplitude, frequency: self.frequency, enabled }
    }
}

/// What the generator hands out for one sample: silence, or the phase at
/// which the sine is to be taken and the amplitude to scale it by.
#[derive(Clone, Copy, Debug, PartialEq, Eq, Structural)]
pub enum Sample {
    Silent,
    Tone { phase: u64, amplitude: i64 },
}

/// The length of a full turn of the phase at a sample rate.
pub open spec fn period_of(sample_rate: int) -> int {
    1000 * sample_rate
}

/// Whether a phase is within its turn. At a sample rate of zero there is no
/// turn, and the phase rests at zero.
pub open spec fn phase_in_turn(phase: int, period: int) -> bool {
    if period > 0 {
        0 <= phase < period
    } else {
        phase == 0
    }
}

/// The phase one sample later: advanced by the frequency and wrapped into
/// the turn.
pub open spec fn next_phase(phase: int, frequency: int, period: int) -> int {
    if period > 0 {
        (phase + frequency) % period
    } else {
        0
    }
}

/// The phase `n` samples later, at a steady frequency.
pub open spec fn phase_after(phase: int, frequency: int, period: int, n: nat) -> int
    decreases n,
{
    if n == 0 {
        phase
    } else {
        next_phase(phase_after(phase, frequency, period, (n - 1) as nat), frequency, period)
    }
}

/// One step of the generator on a snapshot of the parameters: the new phase
/// and what is handed out. While the tone is disabled the phase stands
/// still, so that the wave goes on where it stopped.
pub open spec fn step(phase: int, period: int, state: ThereminState) -> (int, Sample) {
    if state.enabled {
        let moved = next_phase(phase, state.frequency as int, period);
        (moved, Sample::Tone { phase: moved as u64, amplitude: state.amplitude })
    } else {
        (phase, Sample::Silent)
    }
}

/// A sine value scaled by an amplitude, rounded towards zero.
pub open spec fn scaled(sine: int, amplitude: int) -> int {
    let product = sine * amplitude;
    if product >= 0 {
        product / 1000
    } else {
        -((-product) / 1000)
    }
}

/// A value held within the sample limit.
pub open spec fn limited(value: int) -> int {
    if value < -800_000 {
        -800_000
    } else if value > 800_000 {
        800_000
    } else {
        value
    }
}

/// The sample for a sine value and an amplitude.
pub open spec fn shaped(sine: int, amplitude: int) -> int {
    limited(scaled(sine, amplitude))
}

/// Advances a phase by one sample.
pub fn advance_phase(phase: u64, frequency: i64, period: u64) -> (moved: u64)
    requires
        phase_in_turn(phase as int, period as int),
    ensures
        moved as int == next_phase(phase as int, frequency as int, period as int),
        phase_in_turn(moved as int, period as int),
{
    if period == 0 {
        return 0;
    }
    let sum: i128 = phase as i128 + frequency as i128;
    proof {
        lemma_mod_bound(sum as int, period as int);
    }
    if sum >= 0 {
        ((sum as u128) % (period as u128)) as u64
    } else {
        let back: u128 = (-sum) as u128;
        let rest: u128 = back % (period as u128);
        proof {
            let p = period as int;
            let q = (back as int) / p;
            lemma_fundamental_div_mod(back as int, p);
            if rest == 0 {
                assert(sum as int == (-q) * p + 0) by (nonlinear_arith)
                    requires
                        back as int == p * q + 0,
                        sum as int == -(back as int),
                ;
                lemma_fundamental_div_mod_converse(sum as int, p, -q, 0);
            } else {
                assert(sum as int == (-q - 1) * p + (p - rest as int)) by (nonlinear_arith)
                    requires
                        back as int == p * q + rest as int,
                        sum as int == -(back as int),
                ;
                lemma_fundamental_div_mod_converse(sum as int, p, -q - 1, p - rest as int);
            }
        }
        if rest == 0 {
            0
        } else {
            (period as u128 - rest) as u64
        }
    }
}

/// One step of the generator on a snapshot of the parameters.
pub fn advance(phase: u64, sample_rate: u32, state: ThereminState) -> (out: (u64, Sample))
    requires
        phase_in_turn(phase as int, period_of(sample_rate as int)),
    ensures
        out.0 as int == step(phase as int, period_of(sample_rate as int), state).0,
        out.1 == step(phase as int, period_of(sample_rate as int), state).1,
        phase_in_turn(out.0 as int, period_of(sample_rate as int)),
{
    if state.enabled {
        let period: u64 = 1000 * (sample_rate as u64);
        let moved = advance_phase(phase, state.frequency, period);
        (moved, Sample::Tone { phase: moved, amplitude: state.amplitude })
    } else {
        (phase, Sample::Silent)
    }
}

/// Scales a sine value, given in millionths, by an amplitude and holds the
/// result within the sample limit.
pub fn shape_sample(sine: i32, amplitude: i64) -> (sample: i32)
    ensures
        sample as int == shaped(sine as int, amplitude as int),
        -800_000 <= sample <= 800_000,
{
    assert(-0x8000_0000 * 0x8000_0000_0000_0000 <= (sine as int) * (amplitude as int)
        <= 0x8000_0000 * 0x8000_0000_0000_0000) by (nonlinear_arith)
        requires
            -0x8000_0000 <= sine as int <= 0x8000_0000,
            -0x8000_0000_0000_0000 <= amplitude as int <= 0x8000_0000_0000_0000,
    ;
    let product: i128 = (sine as i128) * (amplitude as i128);
    let value: i128 = if product >= 0 {
        product / 1000
    } else {
        -((-product) / 1000)
    };
    if value < -800_000 {
        -SAMPLE_LIMIT
    } else if value > 800_000 {
        SAMPLE_LIMIT
    } else {
        value as i32
    }
}

/// The phase never leaves its turn.
pub proof fn lemma_phase_stays_in_turn(phase: int, frequency: int, period: int, n: nat)
    requires
        phase_in_turn(phase, period),
    ensures
        phase_in_turn(phase_after(phase, frequency, period, n), period),
    decreases n,
{
    if n > 0 {
        let before = phase_after(phase, frequency, period, (n - 1) as nat);
        lemma_phase_stays_in_turn(phase, frequency, period, (n - 1) as nat);
        if period > 0 {
            lemma_mod_bound(before + frequency, period);
        }
    }
}

/// At a steady frequency the phase after `n` samples is the phase at the
/// start plus `n` times the frequency, wrapped into the turn: the steps add
/// up without drift.
pub proof fn lemma_phase_after(phase: int, frequency: int, period: int, n: nat)
    requires
        period > 0,
        0 <= phase < period,
    ensures
        phase_after(phase, frequency, period, n) == (phase + n * frequency) % period,
    decreases n,
{
    if n == 0 {
        lemma_small_mod(phase as nat, period as nat);
        assert(phase + 0 * frequency == phase);
    } else {
        let m = (n - 1) as nat;
        lemma_phase_after(phase, frequency, period, m);
        let before = phase + m * frequency;
        lemma_add_mod_noop(before, frequency, period);
        lemma_mod_bound(before, period);
        lemma_add_mod_noop(before % period, frequency, period);
        lemma_small_mod((before % period) as nat, period as nat);
        assert(before + frequency == phase + n * frequency) by (nonlinear_arith)
            requires
                before == phase + m * frequency,
                m == n - 1,
        ;
    }
}

/// The wave repeats: after a number of samples in which the frequency adds
/// up to whole turns, the phase is back where it was. At a frequency of `F`
/// hertz and `R` samples a second, with `R` a multiple of `F`, that is
/// every `R / F` samples.
pub proof fn lemma_phase_repeats(phase: int, frequency: int, period: int, n: nat)
    requires
        period > 0,
        0 <= phase < period,
        (n * frequency) % period == 0,
    ensures
        phase_after(phase, frequency, period, n) == phase,
{
    lemma_phase_after(phase, frequency, period, n);
    lemma_add_mod_noop(phase, n * frequency, period);
    lemma_small_mod(phase as nat, period as nat);
}

/// A disabled tone is silent and leaves the phase where it is.
pub proof fn lemma_disabled_is_silent(phase: int, period: int, state: ThereminState)
    requires
        !state.enabled,
    ensures
        step(phase, period, state) == (phase, Sample::Silent),
{
}

/// No sample exceeds the limit, whatever the sine value and the amplitude.
pub proof fn lemma_sample_within_limit(sine: int, amplitude: int)
    ensures
        -800_000 <= shaped(sine, amplitude) <= 800_000,
{
}

} // verus!

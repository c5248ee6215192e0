//! The tone generator: a phase of its own and the parameters that it shares
//! with whoever sets them.
//!
//! The parameters live behind one lock and are read and written whole, each
//! time in a single acquisition, so that a reader never sees the amplitude of
//! one write beside the frequency of another. The lock carries an invariant
//! that is chosen when the state is made: every write must meet it, and so
//! every read does. Where that invariant is a set of pairs of amplitude and
//! frequency, what a reader sees is one of those pairs, whole.
//!
//! What a write stores is computed from what it read by `with_parameters`
//! and `with_enabled`, between the acquisition of the lock and its release.
//! What the lock holds between two calls belongs to every thread that has a
//! handle, so no contract here speaks of it.

use vstd::prelude::*;
use vstd::rwlock::RwLock;
use std::sync::Arc;
use crate::oscillator::{advance, next_phase, period_of, phase_in_turn, retuned, step, switched};
use crate::oscillator::{Sample, ThereminState};

verus! {

/// Number of channels of the stream: the mono wave is played on both.
pub const CHANNELS: u16 = 2;

/// A further handle on a shared value. `Arc::clone` makes a new pointer to
/// the same allocation, so the two handles are one value to their readers.
#[verifier::external_body]
fn share<T>(handle: &Arc<T>) -> (shared: Arc<T>)
    ensures
        shared == *handle,
{
    Arc::clone(handle)
}

/// A tone generator.
pub struct ThereminSource {
    state: Arc<RwLock<ThereminState, spec_fn(ThereminState) -> bool>>,
    sample_rate: u32,
    phase: u64,
}

impl ThereminSource {
    #[verifier::type_invariant]
    spec fn phase_is_in_turn(&self) -> bool {
        phase_in_turn(self.phase as int, period_of(self.sample_rate as int))
    }

    /// Whether the shared state may hold `state`: the invariant that the
    /// state was made with.
    pub closed spec fn admits(&self, state: ThereminState) -> bool {
        self.state.inv(state)
    }

    /// Whether the shared state may hold the states whose amplitude and
    /// frequency form one of `pairs`, and no others.
    pub open spec fn keeps_to_pairs(&self, pairs: Set<(i64, i64)>) -> bool {
        forall|state: ThereminState| #[trigger]
            self.admits(state) == pairs.contains((state.amplitude, state.frequency))
    }

    /// Whether two generators share their parameters.
    pub closed spec fn shares_with(&self, other: &ThereminSource) -> bool {
        self.state == other.state
    }

    /// The sample rate, in samples a second.
    pub closed spec fn rate(&self) -> u32 {
        self.sample_rate
    }

    /// The phase at which the last sample was taken.
    pub closed spec fn phase(&self) -> u64 {
        self.phase
    }

    /// A generator whose shared state may hold any parameters.
    pub fn new(amplitude: i64, frequency: i64, sample_rate: u32) -> (source: ThereminSource)
        ensures
            forall|state: ThereminState| source.admits(state),
            source.rate() == sample_rate,
            source.phase() == 0,
    {
        let initial = ThereminState { amplitude, frequency, enabled: true };
        ThereminSource::with_rule(initial, sample_rate, Ghost(|state: ThereminState| true))
    }

    /// A generator whose shared state holds `initial` and will only ever hold
    /// what meets `allowed`.
    pub fn with_rule(
        initial: ThereminState,
        sample_rate: u32,
        Ghost(allowed): Ghost<spec_fn(ThereminState) -> bool>,
    ) -> (source: ThereminSource)
        requires
            allowed(initial),
        ensures
            forall|state: ThereminState| source.admits(state) == allowed(state),
            source.rate() == sample_rate,
            source.phase() == 0,
    {
        let lock = RwLock::<ThereminState, spec_fn(ThereminState) -> bool>::new(
            initial,
            Ghost(allowed),
        );
        ThereminSource { state: Arc::new(lock), sample_rate, phase: 0 }
    }

    /// A generator whose shared state holds the given amplitude and
    /// frequency, enabled, and will only ever hold an amplitude and a
    /// frequency that form one of `pairs`.
    pub fn with_pairs(
        amplitude: i64,
        frequency: i64,
        sample_rate: u32,
        Ghost(pairs): Ghost<Set<(i64, i64)>>,
    ) -> (source: ThereminSource)
        requires
            pairs.contains((amplitude, frequency)),
        ensures
            source.keeps_to_pairs(pairs),
            source.rate() == sample_rate,
            source.phase() == 0,
    {
        let initial = ThereminState { amplitude, frequency, enabled: true };
        ThereminSource::with_rule(
            initial,
            sample_rate,
            Ghost(|state: ThereminState| pairs.contains((state.amplitude, state.frequency))),
        )
    }

    /// The parameters as they are now, read whole in one acquisition of the
    /// lock.
    pub fn snapshot(&self) -> (state: ThereminState)
        ensures
            self.admits(state),
    {
        let handle = self.state.acquire_read();
        let state = *handle.borrow();
        handle.release_read();
        state
    }

    /// Replaces the parameters, whole and in one acquisition of the lock.
    pub fn publish(&self, state: ThereminState)
        requires
            self.admits(state),
    {
        let (_, handle) = self.state.acquire_write();
        handle.release_write(state);
    }

    /// Sets amplitude and frequency and leaves the tone enabled or disabled
    /// as it is.
    pub fn update_parameters(&self, amplitude: i64, frequency: i64)
        requires
            forall|state: ThereminState|
                #[trigger] self.admits(state) ==> self.admits(
                    retuned(state, amplitude, frequency),
                ),
    {
        let (current, handle) = self.state.acquire_write();
        assert(self.admits(current));
        handle.release_write(current.with_parameters(amplitude, frequency));
    }

    /// Enables or disables the tone and leaves amplitude and frequency as
    /// they are.
    pub fn set_enabled(&self, enabled: bool)
        requires
            forall|state: ThereminState|
                #[trigger] self.admits(state) ==> self.admits(switched(state, enabled)),
    {
        let (current, handle) = self.state.acquire_write();
        assert(self.admits(current));
        handle.release_write(current.with_enabled(enabled));
    }

    /// Whether the tone is enabled.
    pub fn is_enabled(&self) -> (enabled: bool)
        ensures
            exists|state: ThereminState| self.admits(state) && state.enabled == enabled,
    {
        self.snapshot().enabled
    }

    /// The amplitude, in thousandths of full scale.
    pub fn get_amplitude(&self) -> (amplitude: i64)
        ensures
            exists|state: ThereminState| self.admits(state) && state.amplitude == amplitude,
    {
        self.snapshot().amplitude
    }

    /// The frequency, in millihertz.
    pub fn get_frequency(&self) -> (frequency: i64)
        ensures
            exists|state: ThereminState| self.admits(state) && state.frequency == frequency,
    {
        self.snapshot().frequency
    }

    /// The next sample: one snapshot of the parameters, and one step of the
    /// phase on it.
    pub fn generate_sample(&mut self) -> (sample: Sample)
        ensures
            final(self).shares_with(old(self)),
            forall|state: ThereminState|
                #[trigger] final(self).admits(state) == old(self).admits(state),
            final(self).rate() == old(self).rate(),
            phase_in_turn(old(self).phase() as int, period_of(old(self).rate() as int)),
            phase_in_turn(final(self).phase() as int, period_of(old(self).rate() as int)),
            exists|state: ThereminState|
                old(self).admits(state) && (final(self).phase() as int, sample) == step(
                    old(self).phase() as int,
                    period_of(old(self).rate() as int),
                    state,
                ),
    {
        proof {
            use_type_invariant(&*self);
        }
        let state = self.snapshot();
        let (moved, sample) = advance(self.phase, self.sample_rate, state);
        self.phase = moved;
        sample
    }

    /// Number of channels of the stream.
    pub fn channels(&self) -> (channels: u16)
        ensures
            channels == 2,
    {
        CHANNELS
    }

    /// The sample rate, in samples a second.
    pub fn sample_rate(&self) -> (sample_rate: u32)
        ensures
            sample_rate == self.rate(),
    {
        self.sample_rate
    }

    /// The length of a full turn of the phase.
    pub fn period(&self) -> (period: u64)
        ensures
            period as int == period_of(self.rate() as int),
    {
        1000 * (self.sample_rate as u64)
    }
}

impl Clone for ThereminSource {
    /// A generator for another listener: it shares the parameters and starts
    /// its own phase at zero.
    fn clone(&self) -> (source: ThereminSource)
        ensures
            source.shares_with(self),
            forall|state: ThereminState| #[trigger] source.admits(state) == self.admits(state),
            source.rate() == self.rate(),
            source.phase() == 0,
    {
        ThereminSource { state: share(&self.state), sample_rate: self.sample_rate, phase: 0 }
    }
}

/// A reader sees whole writes only. Where every write is held to a set of
/// pairs of amplitude and frequency, the state that a reader sees holds one
/// of those pairs: never the amplitude of one beside the frequency of
/// another, unless that pair is in the set itself.
pub proof fn lemma_reads_are_whole_writes(
    source: &ThereminSource,
    pairs: Set<(i64, i64)>,
    state: ThereminState,
)
    requires
        source.keeps_to_pairs(pairs),
        source.admits(state),
    ensures
        pairs.contains((state.amplitude, state.frequency)),
{
}

/// A sample is made of one pair. Where every write is held to a set of
/// pairs, the amplitude that a sample carries and the frequency that moved
/// the phase to it are one pair of the set, and whether the tone sounds was
/// read with them.
pub proof fn lemma_sample_is_of_one_pair(
    source: &ThereminSource,
    pairs: Set<(i64, i64)>,
    state: ThereminState,
    phase: int,
    moved: int,
    sample: Sample,
)
    requires
        source.keeps_to_pairs(pairs),
        source.admits(state),
        (moved, sample) == step(phase, period_of(source.rate() as int), state),
    ensures
        pairs.contains((state.amplitude, state.frequency)),
        state.enabled ==> moved == next_phase(
            phase,
            state.frequency as int,
            period_of(source.rate() as int),
        ) && sample == (Sample::Tone { phase: moved as u64, amplitude: state.amplitude }),
        !state.enabled ==> moved == phase && sample == Sample::Silent,
{
}

/// Writers that keep to a set of pairs may write: setting an amplitude and a
/// frequency that form a pair of the set, or enabling and disabling the
/// tone, leaves the state within what the lock admits.
pub proof fn lemma_pairs_may_be_written(
    source: &ThereminSource,
    pairs: Set<(i64, i64)>,
    state: ThereminState,
    amplitude: i64,
    frequency: i64,
    enabled: bool,
)
    requires
        source.keeps_to_pairs(pairs),
        source.admits(state),
        pairs.contains((amplitude, frequency)),
    ensures
        source.admits(retuned(state, amplitude, frequency)),
        source.admits(switched(state, enabled)),
{
}

} // verus!

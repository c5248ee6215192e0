use aruco_theremin::oscillator::{Sample, ThereminState};
use aruco_theremin::source::ThereminSource;

#[test]
fn new_source_is_enabled_with_its_parameters() {
    let source = ThereminSource::new(500, 440_000, 44_100);
    assert!(source.is_enabled());
    assert_eq!(source.get_amplitude(), 500);
    assert_eq!(source.get_frequency(), 440_000);
    assert_eq!(source.sample_rate(), 44_100);
    assert_eq!(source.period(), 44_100_000);
    assert_eq!(source.channels(), 2);
    assert_eq!(
        source.snapshot(),
        ThereminState { amplitude: 500, frequency: 440_000, enabled: true }
    );
}

#[test]
fn parameters_are_not_clamped_when_written() {
    let source = ThereminSource::new(0, 0, 48_000);
    source.update_parameters(2500, 20_000_000);
    assert_eq!(source.get_amplitude(), 2500);
    assert_eq!(source.get_frequency(), 20_000_000);
    source.update_parameters(-300, -5);
    assert_eq!(source.get_amplitude(), -300);
    assert_eq!(source.get_frequency(), -5);
    source.update_parameters(i64::MAX, i64::MIN);
    assert_eq!(source.get_amplitude(), i64::MAX);
    assert_eq!(source.get_frequency(), i64::MIN);
}

#[test]
fn update_keeps_the_enabled_flag() {
    let source = ThereminSource::new(500, 440_000, 44_100);
    source.set_enabled(false);
    source.update_parameters(300, 220_000);
    assert!(!source.is_enabled());
    assert_eq!(
        source.snapshot(),
        ThereminState { amplitude: 300, frequency: 220_000, enabled: false }
    );
}

#[test]
fn enabling_keeps_the_parameters() {
    let source = ThereminSource::new(700, 196_000, 44_100);
    source.set_enabled(false);
    assert!(!source.is_enabled());
    assert_eq!(source.get_amplitude(), 700);
    assert_eq!(source.get_frequency(), 196_000);
    source.set_enabled(true);
    assert!(source.is_enabled());
    assert_eq!(source.get_amplitude(), 700);
    assert_eq!(source.get_frequency(), 196_000);
    source.set_enabled(true);
    assert!(source.is_enabled());
}

#[test]
fn publish_replaces_the_whole_state() {
    let source = ThereminSource::new(500, 440_000, 44_100);
    let next = ThereminState { amplitude: 100, frequency: 130_810, enabled: false };
    source.publish(next);
    assert_eq!(source.snapshot(), next);
}

#[test]
fn samples_advance_the_phase() {
    let mut source = ThereminSource::new(500, 440_000, 44_100);
    assert_eq!(source.generate_sample(), Sample::Tone { phase: 440_000, amplitude: 500 });
    assert_eq!(source.generate_sample(), Sample::Tone { phase: 880_000, amplitude: 500 });
    source.update_parameters(800, 220_000);
    assert_eq!(source.generate_sample(), Sample::Tone { phase: 1_100_000, amplitude: 800 });
}

#[test]
fn phase_stays_within_the_turn() {
    let mut source = ThereminSource::new(1000, 13_000_777, 8_000);
    for _ in 0..10_000 {
        match source.generate_sample() {
            Sample::Tone { phase, amplitude } => {
                assert!(phase < source.period());
                assert_eq!(amplitude, 1000);
            }
            Sample::Silent => panic!("an enabled tone gave silence"),
        }
    }
}

#[test]
fn disabled_source_is_silent_and_resumes_where_it_stopped() {
    let mut source = ThereminSource::new(500, 440_000, 44_100);
    assert_eq!(source.generate_sample(), Sample::Tone { phase: 440_000, amplitude: 500 });
    source.set_enabled(false);
    for _ in 0..10 {
        assert_eq!(source.generate_sample(), Sample::Silent);
    }
    source.set_enabled(true);
    assert_eq!(source.generate_sample(), Sample::Tone { phase: 880_000, amplitude: 500 });
}

#[test]
fn clone_shares_the_parameters() {
    let source = ThereminSource::new(500, 440_000, 44_100);
    let listener = source.clone();
    assert_eq!(listener.sample_rate(), 44_100);
    source.update_parameters(900, 329_630);
    assert_eq!(listener.get_amplitude(), 900);
    assert_eq!(listener.get_frequency(), 329_630);
    listener.set_enabled(false);
    assert!(!source.is_enabled());
}

#[test]
fn clone_has_a_phase_of_its_own() {
    let mut source = ThereminSource::new(500, 440_000, 44_100);
    source.generate_sample();
    source.generate_sample();
    let mut listener = source.clone();
    assert_eq!(listener.generate_sample(), Sample::Tone { phase: 440_000, amplitude: 500 });
    assert_eq!(source.generate_sample(), Sample::Tone { phase: 1_320_000, amplitude: 500 });
    assert_eq!(listener.generate_sample(), Sample::Tone { phase: 880_000, amplitude: 500 });
}

#[test]
fn source_without_a_sample_rate_rests() {
    let mut source = ThereminSource::new(500, 440_000, 0);
    assert_eq!(source.period(), 0);
    assert_eq!(source.generate_sample(), Sample::Tone { phase: 0, amplitude: 500 });
    assert_eq!(source.generate_sample(), Sample::Tone { phase: 0, amplitude: 500 });
}

#[test]
fn highest_sample_rate() {
    let mut source = ThereminSource::new(1, i64::MAX, u32::MAX);
    assert_eq!(source.period(), 1000 * (u32::MAX as u64));
    let expected = (i64::MAX as u64) % source.period();
    assert_eq!(source.generate_sample(), Sample::Tone { phase: expected, amplitude: 1 });
}

#[test]
fn readers_never_see_a_torn_pair() {
    // Every write sets the frequency to a thousand times the amplitude. A
    // reader that ever saw the halves of two writes would see a pair that
    // does not fit. Three writers and a reader take turns on handles of
    // their own.
    let source = ThereminSource::new(1, 1000, 44_100);
    let writers = [source.clone(), source.clone(), source.clone()];
    let mut reader = source.clone();
    for n in 0..20_000i64 {
        let writer = &writers[(n % 3) as usize];
        let amplitude = 1 + (n * 7) % 997;
        writer.update_parameters(amplitude, 1000 * amplitude);
        let state = reader.snapshot();
        assert_eq!(state.amplitude, amplitude);
        assert_eq!(state.frequency, 1000 * amplitude);
        match reader.generate_sample() {
            Sample::Tone { phase, amplitude: heard } => {
                assert!(phase < 44_100_000);
                assert_eq!(heard, amplitude);
            }
            Sample::Silent => panic!("nobody disabled the tone"),
        }
    }
    let last = source.snapshot();
    assert_eq!(last.frequency, 1000 * last.amplitude);
}

fn needs_send_and_sync<T: Send + Sync>(_value: &T) {}

#[test]
fn source_can_go_to_another_thread() {
    let source = ThereminSource::new(500, 440_000, 44_100);
    needs_send_and_sync(&source);
    needs_send_and_sync(&source.clone());
}

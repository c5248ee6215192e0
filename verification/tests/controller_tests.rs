use aruco_theremin::controller::{ControllerState, ThereminController, OUTPUT_VOLUME, SAMPLE_RATE};
use aruco_theremin::oscillator::{Sample, ThereminState};

#[test]
fn new_controller_sounds_at_half_amplitude_on_a4() {
    let controller = ThereminController::new();
    assert!(controller.is_enabled());
    assert!(!controller.is_stopped());
    assert_eq!(controller.get_amplitude(), 500);
    assert_eq!(controller.get_frequency(), 440_000);
    let state = controller.state();
    assert_eq!(state, ControllerState::new());
    assert_eq!(state.last_amplitude, 500);
    assert_eq!(state.last_frequency, 440_000);
    assert_eq!(SAMPLE_RATE, 44_100);
    assert_eq!(OUTPUT_VOLUME, 700);
}

#[test]
fn position_maps_to_frequency_and_amplitude() {
    assert_eq!(ThereminController::map_position_to_audio(-1000, -1000), (130_810, 100));
    assert_eq!(ThereminController::map_position_to_audio(1000, 1000), (440_000, 1000));
    assert_eq!(ThereminController::map_position_to_audio(-10, 0), (261_630, 500));
    assert_eq!(ThereminController::map_position_to_audio(0, -10), (220_000, 600));
    assert_eq!(ThereminController::map_position_to_audio(2000, -2000), (440_000, 500));
}

#[test]
fn position_is_heard_while_sounding() {
    let mut controller = ThereminController::new();
    controller.update_from_position(0, -1000);
    assert_eq!(controller.get_amplitude(), 600);
    assert_eq!(controller.get_frequency(), 130_810);
    let state = controller.state();
    assert_eq!(state.last_amplitude, 600);
    assert_eq!(state.last_frequency, 130_810);
    assert!(controller.is_enabled());
}

#[test]
fn toggle_mutes_and_keeps_the_parameters() {
    let mut controller = ThereminController::new();
    controller.update_from_position(450, 250);
    controller.toggle_sound();
    assert!(!controller.is_enabled());
    assert_eq!(controller.get_amplitude(), 800);
    assert_eq!(controller.get_frequency(), 293_660);
}

#[test]
fn two_toggles_bring_the_controller_back() {
    let mut controller = ThereminController::new();
    controller.update_from_position(-700, 700);
    let before = controller.state();
    controller.toggle_sound();
    controller.toggle_sound();
    assert_eq!(controller.state(), before);
    assert!(controller.is_enabled());
    assert_eq!(controller.get_amplitude(), 200);
    assert_eq!(controller.get_frequency(), 392_000);
}

#[test]
fn two_toggles_from_muted_keep_what_is_remembered() {
    let mut controller = ThereminController::new();
    controller.toggle_sound();
    let before = controller.state();
    controller.toggle_sound();
    controller.toggle_sound();
    assert_eq!(controller.state(), before);
}

#[test]
fn position_sent_while_muted_is_heard_on_unmute() {
    let mut controller = ThereminController::new();
    controller.update_from_position(0, 0);
    controller.toggle_sound();
    controller.update_from_position(1000, 1000);
    // Not heard yet.
    assert_eq!(controller.get_amplitude(), 600);
    assert_eq!(controller.get_frequency(), 261_630);
    assert_eq!(controller.state().last_amplitude, 1000);
    assert_eq!(controller.state().last_frequency, 440_000);
    controller.update_from_position(-1000, -500);
    assert_eq!(controller.state().last_amplitude, 100);
    assert_eq!(controller.state().last_frequency, 164_810);
    controller.toggle_sound();
    assert!(controller.is_enabled());
    assert_eq!(controller.get_amplitude(), 100);
    assert_eq!(controller.get_frequency(), 164_810);
}

#[test]
fn generator_hears_what_the_controller_publishes() {
    let mut controller = ThereminController::new();
    let mut source = controller.audio_source();
    assert_eq!(source.sample_rate(), 44_100);
    assert_eq!(
        source.snapshot(),
        ThereminState { amplitude: 500, frequency: 440_000, enabled: true }
    );
    assert_eq!(source.generate_sample(), Sample::Tone { phase: 440_000, amplitude: 500 });
    controller.update_from_position(1000, -1000);
    assert_eq!(source.generate_sample(), Sample::Tone { phase: 570_810, amplitude: 1000 });
    controller.toggle_sound();
    assert!(!source.is_enabled());
    assert_eq!(source.generate_sample(), Sample::Silent);
    controller.update_from_position(-1000, 1000);
    assert_eq!(
        source.snapshot(),
        ThereminState { amplitude: 1000, frequency: 130_810, enabled: false }
    );
    assert_eq!(source.generate_sample(), Sample::Silent);
    controller.toggle_sound();
    assert_eq!(
        source.snapshot(),
        ThereminState { amplitude: 100, frequency: 440_000, enabled: true }
    );
    assert_eq!(source.generate_sample(), Sample::Tone { phase: 1_010_810, amplitude: 100 });
}

#[test]
fn position_off_the_axis_gives_the_defaults() {
    let mut controller = ThereminController::new();
    controller.update_from_position(-1000, -1000);
    controller.update_from_position(1500, -1500);
    assert_eq!(controller.get_amplitude(), 500);
    assert_eq!(controller.get_frequency(), 440_000);
    controller.update_from_position(i64::MIN, i64::MAX);
    assert_eq!(controller.get_amplitude(), 500);
    assert_eq!(controller.get_frequency(), 440_000);
}

#[test]
fn stop_is_final_and_leaves_the_parameters() {
    let mut controller = ThereminController::new();
    controller.update_from_position(300, 300);
    let before = controller.state();
    controller.stop();
    assert!(controller.is_stopped());
    assert_eq!(controller.get_amplitude(), before.live.amplitude);
    assert_eq!(controller.get_frequency(), before.live.frequency);
    assert!(controller.is_enabled());
    controller.toggle_sound();
    controller.update_from_position(0, 0);
    controller.toggle_sound();
    controller.stop();
    assert!(controller.is_stopped());
}

#[test]
fn steps_of_the_state_machine() {
    let start = ControllerState::new();
    let moved = start.update(-1000, 1000);
    assert_eq!(moved.live, ThereminState { amplitude: 100, frequency: 440_000, enabled: true });
    assert_eq!(moved.last_amplitude, 100);
    assert_eq!(moved.last_frequency, 440_000);
    let muted = moved.toggle();
    assert_eq!(muted.live, ThereminState { amplitude: 100, frequency: 440_000, enabled: false });
    let moved_muted = muted.update(1000, -1000);
    assert_eq!(moved_muted.live, muted.live);
    assert_eq!(moved_muted.last_amplitude, 1000);
    assert_eq!(moved_muted.last_frequency, 130_810);
    let back = moved_muted.toggle();
    assert_eq!(back.live, ThereminState { amplitude: 1000, frequency: 130_810, enabled: true });
    let halted = back.halt();
    assert!(halted.stopped);
    assert_eq!(halted.live, back.live);
    assert!(halted.toggle().stopped);
    assert!(halted.update(0, 0).stopped);
    assert!(!back.stopped);
}

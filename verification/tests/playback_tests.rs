use aruco_theremin::playback::{clamp_pitch, AudioController, AudioPlayer, PlaybackAction};

fn controller() -> AudioController {
    AudioController::new(AudioPlayer::new(), "theme.wav".to_string())
}

#[test]
fn player_starts_at_the_pitch_of_the_recording() {
    let player = AudioPlayer::new();
    assert_eq!(player.get_pitch(), 1000);
}

#[test]
fn pitch_is_held_between_a_quarter_and_four() {
    let mut player = AudioPlayer::new();
    player.set_pitch(1500);
    assert_eq!(player.get_pitch(), 1500);
    player.set_pitch(249);
    assert_eq!(player.get_pitch(), 250);
    player.set_pitch(250);
    assert_eq!(player.get_pitch(), 250);
    player.set_pitch(4000);
    assert_eq!(player.get_pitch(), 4000);
    player.set_pitch(4001);
    assert_eq!(player.get_pitch(), 4000);
    player.set_pitch(i64::MIN);
    assert_eq!(player.get_pitch(), 250);
    player.set_pitch(i64::MAX);
    assert_eq!(player.get_pitch(), 4000);
}

#[test]
fn new_controller_does_not_play() {
    let mut player = AudioPlayer::new();
    player.set_pitch(2000);
    let controller = AudioController::new(player, "theme.wav".to_string());
    assert!(!controller.is_audio_playing());
    assert_eq!(controller.get_current_pitch(), 2000);
    assert_eq!(controller.audio_file(), "theme.wav");
}

#[test]
fn toggle_starts_and_stops() {
    let mut controller = controller();
    assert_eq!(controller.toggle_audio_playback(), PlaybackAction::Start);
    assert!(controller.is_audio_playing());
    assert_eq!(controller.toggle_audio_playback(), PlaybackAction::Stop);
    assert!(!controller.is_audio_playing());
    assert_eq!(controller.get_current_pitch(), 1000);
}

#[test]
fn failed_start_leaves_the_controller_idle() {
    let mut controller = controller();
    assert_eq!(controller.toggle_audio_playback(), PlaybackAction::Start);
    controller.start_failed();
    assert!(!controller.is_audio_playing());
    assert_eq!(controller.toggle_audio_playback(), PlaybackAction::Start);
}

#[test]
fn pitch_change_restarts_only_what_plays() {
    let mut controller = controller();
    assert_eq!(controller.adjust_pitch_with_restart(1200), PlaybackAction::Nothing);
    assert_eq!(controller.get_current_pitch(), 1200);
    controller.toggle_audio_playback();
    assert_eq!(controller.adjust_pitch_with_restart(9000), PlaybackAction::Restart);
    assert_eq!(controller.get_current_pitch(), 4000);
    assert!(controller.is_audio_playing());
}

#[test]
fn keys_step_the_pitch() {
    let mut controller = controller();
    assert_eq!(controller.process_pitch_adjustment(43), PlaybackAction::Nothing);
    assert_eq!(controller.get_current_pitch(), 1050);
    controller.toggle_audio_playback();
    assert_eq!(controller.process_pitch_adjustment(61), PlaybackAction::Restart);
    assert_eq!(controller.get_current_pitch(), 1102);
    assert_eq!(controller.process_pitch_adjustment(45), PlaybackAction::Restart);
    assert_eq!(controller.get_current_pitch(), 1046);
    assert_eq!(controller.process_pitch_adjustment(95), PlaybackAction::Restart);
    assert_eq!(controller.get_current_pitch(), 993);
}

#[test]
fn other_keys_leave_the_pitch() {
    let mut controller = controller();
    controller.toggle_audio_playback();
    for key in [27, 32, 114, 0, -1, 44, 1000] {
        assert_eq!(controller.process_pitch_adjustment(key), PlaybackAction::Nothing);
        assert_eq!(controller.get_current_pitch(), 1000);
        assert!(controller.is_audio_playing());
    }
}

#[test]
fn pitch_climbs_to_the_highest_and_stays() {
    let mut controller = controller();
    controller.toggle_audio_playback();
    let mut steps = Vec::new();
    for _ in 0..31 {
        let action = controller.process_pitch_adjustment(43);
        steps.push((controller.get_current_pitch(), action));
    }
    assert_eq!(steps[0], (1050, PlaybackAction::Restart));
    assert_eq!(steps[1], (1102, PlaybackAction::Restart));
    assert_eq!(steps[27], (3893, PlaybackAction::Restart));
    assert_eq!(steps[28], (4000, PlaybackAction::Restart));
    assert_eq!(steps[29], (4000, PlaybackAction::Nothing));
    assert_eq!(steps[30], (4000, PlaybackAction::Nothing));
}

#[test]
fn pitch_falls_to_the_lowest_and_stays() {
    let mut controller = controller();
    let mut steps = Vec::new();
    for _ in 0..29 {
        controller.process_pitch_adjustment(45);
        steps.push(controller.get_current_pitch());
    }
    assert_eq!(steps[0], 950);
    assert_eq!(steps[25], 257);
    assert_eq!(steps[26], 250);
    assert_eq!(steps[27], 250);
    assert_eq!(steps[28], 250);
}

#[test]
fn step_of_a_thousandth_is_not_taken() {
    let mut controller = controller();
    controller.toggle_audio_playback();
    controller.adjust_pitch_with_restart(251);
    // Down from 251 would be 238, held at 250: a thousandth away.
    assert_eq!(controller.process_pitch_adjustment(45), PlaybackAction::Nothing);
    assert_eq!(controller.get_current_pitch(), 251);
    controller.adjust_pitch_with_restart(252);
    assert_eq!(controller.process_pitch_adjustment(45), PlaybackAction::Restart);
    assert_eq!(controller.get_current_pitch(), 250);
    controller.adjust_pitch_with_restart(3999);
    assert_eq!(controller.process_pitch_adjustment(43), PlaybackAction::Nothing);
    assert_eq!(controller.get_current_pitch(), 3999);
}

#[test]
fn reset_goes_back_to_the_recording() {
    let mut controller = controller();
    controller.adjust_pitch_with_restart(3000);
    assert_eq!(controller.reset_pitch(), PlaybackAction::Nothing);
    assert_eq!(controller.get_current_pitch(), 1000);
    controller.toggle_audio_playback();
    controller.adjust_pitch_with_restart(500);
    assert_eq!(controller.reset_pitch(), PlaybackAction::Restart);
    assert_eq!(controller.get_current_pitch(), 1000);
    assert!(controller.is_audio_playing());
}

#[test]
fn stop_always_stops() {
    let mut controller = controller();
    assert_eq!(controller.stop(), PlaybackAction::Stop);
    assert!(!controller.is_audio_playing());
    controller.toggle_audio_playback();
    controller.adjust_pitch_with_restart(1700);
    assert_eq!(controller.stop(), PlaybackAction::Stop);
    assert!(!controller.is_audio_playing());
    assert_eq!(controller.get_current_pitch(), 1700);
    assert_eq!(controller.audio_file(), "theme.wav");
}

#[test]
fn pitch_clamp_on_its_own() {
    assert_eq!(clamp_pitch(1000), 1000);
    assert_eq!(clamp_pitch(0), 250);
    assert_eq!(clamp_pitch(-1), 250);
    assert_eq!(clamp_pitch(250), 250);
    assert_eq!(clamp_pitch(4000), 4000);
    assert_eq!(clamp_pitch(4001), 4000);
}

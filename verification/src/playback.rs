//! Playback of a sound file at an adjustable pitch: the pitch register and
//! the decisions of the playback controller.
//!
//! The controller does not touch the audio device. Each of its operations
//! changes what it knows and answers with the action that the owner of the
//! device is to perform. A pitch is a fixed-point number in thousandths:
//! `1000` is the pitch of the recording.

use vstd::prelude::*;
use crate::keys::{get_pitch_factor, pitch_factor_of};

verus! {

/// The lowest pitch: a quarter of the recording's.
pub const MIN_PITCH: i64 = 250;

/// The highest pitch: four times the recording's.
pub const MAX_PITCH: i64 = 4000;

/// The pitch of the recording.
pub const DEFAULT_PITCH: i64 = 1000;

/// A change of pitch smaller than this, or equal to it, is not worth a
/// restart.
pub const PITCH_STEP_FLOOR: i64 = 1;

/// A pitch held within the lowest and the highest.
pub open spec fn clamped_pitch(pitch: int) -> int {
    if pitch < 250 {
        250
    } else if pitch > 4000 {
        4000
    } else {
        pitch
    }
}

/// Holds a pitch within the lowest and the highest.
pub fn clamp_pitch(pitch: i64) -> (held: i64)
    ensures
        held as int == clamped_pitch(pitch as int),
{
    if pitch < MIN_PITCH {
        MIN_PITCH
    } else if pitch > MAX_PITCH {
        MAX_PITCH
    } else {
        pitch
    }
}

/// The pitch register of a player.
pub struct AudioPlayer {
    current_pitch: i64,
}

impl AudioPlayer {
    #[verifier::type_invariant]
    spec fn pitch_in_range(&self) -> bool {
        250 <= self.current_pitch <= 4000
    }

    /// The pitch, in thousandths.
    pub closed spec fn pitch(&self) -> int {
        self.current_pitch as int
    }

    /// A player at the pitch of the recording.
    pub fn new() -> (player: AudioPlayer)
        ensures
            player.pitch() == 1000,
    {
        AudioPlayer { current_pitch: DEFAULT_PITCH }
    }

    /// Sets the pitch, held within the lowest and the highest.
    pub fn set_pitch(&mut self, pitch: i64)
        ensures
            final(self).pitch() == clamped_pitch(pitch as int),
    {
        self.current_pitch = clamp_pitch(pitch);
    }

    /// The pitch, in thousandths.
    pub fn get_pitch(&self) -> (pitch: i64)
        ensures
            pitch as int == self.pitch(),
            250 <= pitch <= 4000,
    {
        proof {
            use_type_invariant(self);
        }
        self.current_pitch
    }
}

/// What the owner of the audio device is to do after an operation of the
/// controller.
#[derive(Clone, Copy, Debug, PartialEq, Eq, Structural)]
pub enum PlaybackAction {
    /// Leave the device as it is.
    Nothing,
    /// Stop what plays.
    Stop,
    /// Play the file from its start, at the current pitch.
    Start,
    /// Stop what plays, then play the file from its start at the current
    /// pitch.
    Restart,
}

/// What a playback controller is to its users.
pub ghost struct PlaybackModel {
    pub pitch: int,
    pub playing: bool,
    pub file: Seq<char>,
}

/// The pitch after a key's factor is applied: the product, rounded down to a
/// thousandth and held within the lowest and the highest.
pub open spec fn stepped_pitch(pitch: int, factor: int) -> int {
    clamped_pitch((pitch * factor) / 1000)
}

/// Whether two pitches differ by more than a thousandth.
pub open spec fn worth_a_restart(from: int, to: int) -> bool {
    to - from > 1 || from - to > 1
}

/// The action that goes with a change of pitch: a restart while the file
/// plays, nothing otherwise.
pub open spec fn restart_if(playing: bool) -> PlaybackAction {
    if playing {
        PlaybackAction::Restart
    } else {
        PlaybackAction::Nothing
    }
}

/// The controller of one sound file.
pub struct AudioController {
    audio_player: AudioPlayer,
    audio_file: String,
    is_audio_playing: bool,
}

impl View for AudioController {
    type V = PlaybackModel;

    closed spec fn view(&self) -> PlaybackModel {
        PlaybackModel {
            pitch: self.audio_player.pitch(),
            playing: self.is_audio_playing,
            file: self.audio_file@,
        }
    }
}

impl AudioController {
    /// A controller for a file that does not play yet.
    pub fn new(audio_player: AudioPlayer, audio_file: String) -> (controller: AudioController)
        ensures
            controller@ == (PlaybackModel {
                pitch: audio_player.pitch(),
                playing: false,
                file: audio_file@,
            }),
    {
        AudioController { audio_player, audio_file, is_audio_playing: false }
    }

    /// Sets the pitch; the file is to be restarted if it plays.
    pub fn adjust_pitch_with_restart(&mut self, new_pitch: i64) -> (action: PlaybackAction)
        ensures
            final(self)@ == (PlaybackModel {
                pitch: clamped_pitch(new_pitch as int),
                ..old(self)@
            }),
            action == restart_if(old(self)@.playing),
    {
        self.audio_player.set_pitch(new_pitch);
        if self.is_audio_playing {
            PlaybackAction::Restart
        } else {
            PlaybackAction::Nothing
        }
    }

    /// Applies the pitch factor of a key, if the key has one and the pitch
    /// would move by more than a thousandth.
    pub fn process_pitch_adjustment(&mut self, key: i32) -> (action: PlaybackAction)
        ensures
            match pitch_factor_of(key as int) {
                Some(factor) if worth_a_restart(
                    old(self)@.pitch,
                    stepped_pitch(old(self)@.pitch, factor as int),
                ) => {
                    &&& final(self)@ == (PlaybackModel {
                        pitch: stepped_pitch(old(self)@.pitch, factor as int),
                        ..old(self)@
                    })
                    &&& action == restart_if(old(self)@.playing)
                },
                _ => final(self)@ == old(self)@ && action == PlaybackAction::Nothing,
            },
    {
        if let Some(factor) = get_pitch_factor(key) {
            let current_pitch: i64 = self.audio_player.get_pitch();
            assert(factor == 1050 || factor == 950);
            let product: i64 = current_pitch * factor;
            let new_pitch: i64 = clamp_pitch(product / 1000);
            if new_pitch - current_pitch > PITCH_STEP_FLOOR || current_pitch - new_pitch
                > PITCH_STEP_FLOOR {
                return self.adjust_pitch_with_restart(new_pitch);
            }
        }
        PlaybackAction::Nothing
    }

    /// Stops the file if it plays, starts it if it does not.
    pub fn toggle_audio_playback(&mut self) -> (action: PlaybackAction)
        ensures
            final(self)@ == (PlaybackModel { playing: !old(self)@.playing, ..old(self)@ }),
            action == if old(self)@.playing {
                PlaybackAction::Stop
            } else {
                PlaybackAction::Start
            },
    {
        if self.is_audio_playing {
            self.is_audio_playing = false;
            PlaybackAction::Stop
        } else {
            self.is_audio_playing = true;
            PlaybackAction::Start
        }
    }

    /// Notes that the file could not be started: it does not play.
    pub fn start_failed(&mut self)
        ensures
            final(self)@ == (PlaybackModel { playing: false, ..old(self)@ }),
    {
        self.is_audio_playing = false;
    }

    /// Sets the pitch back to that of the recording; the file is to be
    /// restarted if it plays.
    pub fn reset_pitch(&mut self) -> (action: PlaybackAction)
        ensures
            final(self)@ == (PlaybackModel { pitch: 1000, ..old(self)@ }),
            action == restart_if(old(self)@.playing),
    {
        self.adjust_pitch_with_restart(DEFAULT_PITCH)
    }

    /// Stops the file.
    pub fn stop(&mut self) -> (action: PlaybackAction)
        ensures
            final(self)@ == (PlaybackModel { playing: false, ..old(self)@ }),
            action == PlaybackAction::Stop,
    {
        self.is_audio_playing = false;
        PlaybackAction::Stop
    }

    /// The pitch, in thousandths.
    pub fn get_current_pitch(&self) -> (pitch: i64)
        ensures
            pitch as int == self@.pitch,
            250 <= pitch <= 4000,
    {
        self.audio_player.get_pitch()
    }

    /// Whether the file plays.
    pub fn is_audio_playing(&self) -> (playing: bool)
        ensures
            playing == self@.playing,
    {
        self.is_audio_playing
    }

    /// The path of the file.
    pub fn audio_file(&self) -> (file: &String)
        ensures
            file@ == self@.file,
    {
        &self.audio_file
    }
}

} // verus!

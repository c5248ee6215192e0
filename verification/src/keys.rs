//! Keys and the commands that they give.
//!
//! A pitch factor is a fixed-point number in thousandths: `1050` raises the
//! pitch by a twentieth.

use vstd::prelude::*;

verus! {

/// Factor of a fine step up.
pub const FINE_UP: i64 = 1050;

/// Factor of a fine step down.
pub const FINE_DOWN: i64 = 950;

/// A command given by a key.
#[derive(Clone, Copy, Debug, PartialEq, Eq, Structural)]
pub enum KeyCommand {
    Exit,
    ToggleAudio,
    ResetPitch,
    /// Multiply the pitch by this factor.
    AdjustPitch(i64),
    Nothing,
}

/// The command of each key code: Escape leaves, the space bar toggles the
/// audio, `r` resets the pitch, `+` and `=` raise it, `-` and `_` lower it,
/// and no other key does anything.
pub open spec fn key_command_of(key: int) -> KeyCommand {
    if key == 27 {
        KeyCommand::Exit
    } else if key == 32 {
        KeyCommand::ToggleAudio
    } else if key == 114 {
        KeyCommand::ResetPitch
    } else if key == 43 || key == 61 {
        KeyCommand::AdjustPitch(1050)
    } else if key == 45 || key == 95 {
        KeyCommand::AdjustPitch(950)
    } else {
        KeyCommand::Nothing
    }
}

/// The pitch factor of a key, for the keys that adjust the pitch.
pub open spec fn pitch_factor_of(key: int) -> Option<i64> {
    match key_command_of(key) {
        KeyCommand::AdjustPitch(factor) => Some(factor),
        _ => None,
    }
}

/// The command of a key code.
pub fn key_to_command(key: i32) -> (command: KeyCommand)
    ensures
        command == key_command_of(key as int),
{
    match key {
        27 => KeyCommand::Exit,
        32 => KeyCommand::ToggleAudio,
        114 => KeyCommand::ResetPitch,
        43 | 61 => KeyCommand::AdjustPitch(FINE_UP),
        45 | 95 => KeyCommand::AdjustPitch(FINE_DOWN),
        _ => KeyCommand::Nothing,
    }
}

/// The pitch factor of a key, if the key adjusts the pitch.
pub fn get_pitch_factor(key: i32) -> (factor: Option<i64>)
    ensures
        factor == pitch_factor_of(key as int),
{
    match key_to_command(key) {
        KeyCommand::AdjustPitch(factor) => Some(factor),
        _ => None,
    }
}

} // verus!

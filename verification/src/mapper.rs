//! Quantisation of a normalised position into loudness and pitch.
//!
//! Positions and amplitudes are fixed-point numbers in thousandths: the axis
//! runs from `-1000` to `1000`, an amplitude of `1000` is full scale.
//! Frequencies are in millihertz.

use vstd::prelude::*;

verus! {

/// Amplitude used for a coordinate that lies off the axis.
pub const DEFAULT_AMPLITUDE: i64 = 500;

/// Frequency used for a coordinate that lies off the axis: A4.
pub const DEFAULT_FREQUENCY: i64 = 440_000;

/// Whether a coordinate lies on the normalised axis, both ends included.
pub open spec fn on_axis(v: int) -> bool {
    -1000 <= v <= 1000
}

/// The bin of a coordinate on the axis: ten bins, each `200` wide, closed
/// below and open above, the last one closed at both ends.
pub open spec fn bin_of(v: int) -> int
    recommends
        on_axis(v),
{
    if v == 1000 {
        9
    } else {
        (v + 1000) / 200
    }
}

/// The pitch of each bin: C3, D3, E3, G3, A3, C4, D4, E4, G4, A4.
pub open spec fn note_of_bin(k: int) -> int
    recommends
        0 <= k < 10,
{
    if k == 0 {
        130_810
    } else if k == 1 {
        146_830
    } else if k == 2 {
        164_810
    } else if k == 3 {
        196_000
    } else if k == 4 {
        220_000
    } else if k == 5 {
        261_630
    } else if k == 6 {
        293_660
    } else if k == 7 {
        329_630
    } else if k == 8 {
        392_000
    } else {
        440_000
    }
}

/// The amplitude that a horizontal coordinate stands for: a tenth of full
/// scale per bin, from `100` in the first bin to `1000` in the last.
pub open spec fn amplitude_at(x: int) -> int {
    if on_axis(x) {
        100 * (bin_of(x) + 1)
    } else {
        500
    }
}

/// The frequency that a vertical coordinate stands for.
pub open spec fn frequency_at(y: int) -> int {
    if on_axis(y) {
        note_of_bin(bin_of(y))
    } else {
        440_000
    }
}

/// Whether `parameters`, a frequency and an amplitude, are those of the
/// position `(x, y)`.
pub open spec fn is_mapping_of(x: int, y: int, parameters: (i64, i64)) -> bool {
    parameters.0 == frequency_at(y) && parameters.1 == amplitude_at(x)
}

/// Computes the bin of a coordinate that lies on the axis.
pub fn bin_index(v: i64) -> (k: u8)
    requires
        on_axis(v as int),
    ensures
        k as int == bin_of(v as int),
        k < 10,
{
    if v == 1000 {
        9
    } else {
        let shifted: u64 = (v + 1000) as u64;
        (shifted / 200) as u8
    }
}

/// Amplitude for a horizontal coordinate.
pub fn amplitude_for(x: i64) -> (a: i64)
    ensures
        a as int == amplitude_at(x as int),
{
    if -1000 <= x && x <= 1000 {
        let k: u8 = bin_index(x);
        100 * (k as i64 + 1)
    } else {
        DEFAULT_AMPLITUDE
    }
}

/// Frequency for a vertical coordinate.
pub fn frequency_for(y: i64) -> (f: i64)
    ensures
        f as int == frequency_at(y as int),
{
    if -1000 <= y && y <= 1000 {
        let k: u8 = bin_index(y);
        match k {
            0 => 130_810,
            1 => 146_830,
            2 => 164_810,
            3 => 196_000,
            4 => 220_000,
            5 => 261_630,
            6 => 293_660,
            7 => 329_630,
            8 => 392_000,
            _ => 440_000,
        }
    } else {
        DEFAULT_FREQUENCY
    }
}

/// The parameters of a position: its frequency and its amplitude.
pub fn map_position_to_audio(x: i64, y: i64) -> (parameters: (i64, i64))
    ensures
        is_mapping_of(x as int, y as int, parameters),
{
    (frequency_for(y), amplitude_for(x))
}

/// A position has one pair of parameters and no other: the mapping has no
/// memory, and the same position gives the same parameters every time.
pub proof fn lemma_mapping_is_a_function(x: int, y: int, first: (i64, i64), second: (i64, i64))
    requires
        is_mapping_of(x, y, first),
        is_mapping_of(x, y, second),
    ensures
        first == second,
{
}

/// The bins rise with the coordinate.
pub proof fn lemma_bin_monotonic(a: int, b: int)
    requires
        on_axis(a),
        on_axis(b),
        a <= b,
    ensures
        0 <= bin_of(a) <= bin_of(b) <= 9,
{
}

/// Amplitude is a rising step function of the coordinate: it never falls as
/// the coordinate grows along the axis, and stays between a tenth of full
/// scale and full scale.
pub proof fn lemma_amplitude_monotonic(a: int, b: int)
    requires
        on_axis(a),
        on_axis(b),
        a <= b,
    ensures
        100 <= amplitude_at(a) <= amplitude_at(b) <= 1000,
{
    lemma_bin_monotonic(a, b);
}

/// Frequency is a rising step function of the coordinate, from C3 to A4.
pub proof fn lemma_frequency_monotonic(a: int, b: int)
    requires
        on_axis(a),
        on_axis(b),
        a <= b,
    ensures
        130_810 <= frequency_at(a) <= frequency_at(b) <= 440_000,
{
    lemma_bin_monotonic(a, b);
}

/// Two coordinates of one bin map alike: within a bin the output does not
/// move with the input.
pub proof fn lemma_constant_within_bin(a: int, b: int)
    requires
        on_axis(a),
        on_axis(b),
        bin_of(a) == bin_of(b),
    ensures
        amplitude_at(a) == amplitude_at(b),
        frequency_at(a) == frequency_at(b),
{
}

} // verus!

use aruco_theremin::controller::ThereminController;
use aruco_theremin::mapper::{amplitude_for, bin_index, frequency_for};

#[test]
fn amplitude_at_the_borders() {
    assert_eq!(amplitude_for(-1000), 100);
    assert_eq!(amplitude_for(1000), 1000);
}

#[test]
fn amplitude_around_the_centre() {
    assert_eq!(amplitude_for(-10), 500);
    assert_eq!(amplitude_for(0), 600);
}

#[test]
fn frequency_at_the_borders() {
    assert_eq!(frequency_for(-1000), 130_810);
    assert_eq!(frequency_for(1000), 440_000);
}

#[test]
fn every_bin_has_its_note() {
    let notes = [
        130_810, 146_830, 164_810, 196_000, 220_000, 261_630, 293_660, 329_630, 392_000, 440_000,
    ];
    for k in 0..10 {
        let low = -1000 + 200 * k as i64;
        assert_eq!(bin_index(low), k as u8);
        assert_eq!(frequency_for(low), notes[k]);
        assert_eq!(frequency_for(low + 199), notes[k]);
        assert_eq!(amplitude_for(low), 100 * (k as i64 + 1));
        assert_eq!(amplitude_for(low + 199), 100 * (k as i64 + 1));
    }
}

#[test]
fn off_the_axis_gives_the_defaults() {
    assert_eq!(amplitude_for(1001), 500);
    assert_eq!(amplitude_for(-1001), 500);
    assert_eq!(frequency_for(1001), 440_000);
    assert_eq!(frequency_for(-5000), 440_000);
    assert_eq!(amplitude_for(i64::MAX), 500);
    assert_eq!(frequency_for(i64::MIN), 440_000);
}

#[test]
fn mapping_is_repeatable() {
    for x in (-1000..=1000).step_by(37) {
        for y in (-1000..=1000).step_by(91) {
            let first = ThereminController::map_position_to_audio(x, y);
            let second = ThereminController::map_position_to_audio(x, y);
            assert_eq!(first, second);
            assert_eq!(first, (frequency_for(y), amplitude_for(x)));
        }
    }
}

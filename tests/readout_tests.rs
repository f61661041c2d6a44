use split_keyboard::link::RightKeyReadout;
use split_keyboard::packed::{KeyLocations, KeyPressReadout};
use split_keyboard::readout::{
    LeftKeyLocation, LeftKeyLocationHelper, LeftReadout, RightKeyLocation, RightReadout, UniversalKey,
};

#[test]
fn left_readout_bits_follow_columns() {
    let r = LeftReadout::new(0b0010_0000, 0b0000_0001, 0b0000_0100, 0b0000_0110);
    assert!(r.is_pressed(&LeftKeyLocation::C1R1));
    assert!(!r.is_pressed(&LeftKeyLocation::C2R1));
    assert!(r.is_pressed(&LeftKeyLocation::C6R2));
    assert!(r.is_pressed(&LeftKeyLocation::C4R3));
    assert!(!r.is_pressed(&LeftKeyLocation::LT1));
    assert!(r.is_pressed(&LeftKeyLocation::LT2));
    assert!(r.is_pressed(&LeftKeyLocation::LT3));
}

#[test]
fn left_readout_from_samples_packs_rows() {
    let r = LeftReadout::from_samples(
        [true, false, false, false, false, true],
        [false; 6],
        [false, false, true, false, false, false],
        [true, false, true],
    );
    assert_eq!(r, LeftReadout::new(0b0010_0001, 0, 0b0000_1000, 0b0000_0101));
    assert!(r.is_pressed(&LeftKeyLocation::C1R1));
    assert!(r.is_pressed(&LeftKeyLocation::C6R1));
    assert!(r.is_pressed(&LeftKeyLocation::C3R3));
    assert!(r.is_pressed(&LeftKeyLocation::LT1));
    assert!(!r.is_pressed(&LeftKeyLocation::LT2));
}

#[test]
fn default_readouts_are_released() {
    let l = LeftReadout::default();
    let r = RightReadout::default();
    assert!(!l.is_pressed(&LeftKeyLocation::C1R1));
    assert!(!r.is_pressed(&RightKeyLocation::RT1));
    assert_eq!(l, LeftReadout::new(0, 0, 0, 0));
}

#[test]
fn right_readout_bits_follow_columns() {
    let r = RightReadout::new(0b1000_0000, 0b0000_0100, 0, 0b0010_0000);
    assert!(r.is_pressed(&RightKeyLocation::C7R1));
    assert!(!r.is_pressed(&RightKeyLocation::C8R1));
    assert!(r.is_pressed(&RightKeyLocation::C12R2));
    assert!(!r.is_pressed(&RightKeyLocation::RT1));
    assert!(r.is_pressed(&RightKeyLocation::RT3));
}

#[test]
fn universal_key_reads_its_half() {
    let l = LeftReadout::new(0, 0, 0, 0b0000_0001);
    let r = RightReadout::new(0, 0, 0b0100_0000, 0);
    assert!(UniversalKey::LeftKey(LeftKeyLocation::LT1).is_pressed(&l, &r));
    assert!(UniversalKey::RightKey(RightKeyLocation::C8R3).is_pressed(&l, &r));
    assert!(!UniversalKey::RightKey(RightKeyLocation::C7R3).is_pressed(&l, &r));
}

#[test]
fn helper_layout_has_column_one_in_bit_zero() {
    let h = LeftKeyLocationHelper { row_1: 0b0000_0001, row_2: 0b0010_0000, row_3: 0, thumb_cluster: 0b0000_0100 };
    assert!(h.is_pressed(&LeftKeyLocation::C1R1));
    assert!(!h.is_pressed(&LeftKeyLocation::C6R1));
    assert!(h.is_pressed(&LeftKeyLocation::C6R2));
    assert!(h.is_pressed(&LeftKeyLocation::LT3));
    assert!(!h.is_pressed(&LeftKeyLocation::LT1));
}

#[test]
fn right_key_readout_from_samples_packs_rows() {
    let r = RightKeyReadout::from_samples(
        [true, false, false, false, false, true],
        [false; 6],
        [false; 6],
        [true, true, false],
    );
    assert_eq!(r.as_ne_bytes(), [0b1000_0100, 0, 0, 0b1100_0000]);
}

#[test]
fn packed_readout_reports_keys_and_mode() {
    let r = KeyPressReadout::from_samples(
        [true, false, false, false, false, false],
        [false, false, false, false, false, true],
        [false, false, false, true, false, true],
        [false, true, false],
        true,
    );
    assert!(r.is_pressed(KeyLocations::C1R1));
    assert!(r.is_pressed(KeyLocations::C6R2));
    assert!(r.is_pressed(KeyLocations::C4R3));
    assert!(r.is_pressed(KeyLocations::C6R3));
    assert!(!r.is_pressed(KeyLocations::C5R3));
    assert!(r.is_pressed(KeyLocations::LT2));
    assert!(r.is_pressed(KeyLocations::Mode));
    assert!(!r.is_pressed(KeyLocations::LT1));
    let keys = r.get_high_keys();
    assert_eq!(
        keys.as_slice(),
        &[KeyLocations::C1R1, KeyLocations::C6R2, KeyLocations::C4R3, KeyLocations::C6R3, KeyLocations::LT2]
    );
}

#[test]
fn packed_readout_all_pressed_lists_every_key() {
    let r = KeyPressReadout::from_samples([true; 6], [true; 6], [true; 6], [true; 3], false);
    let keys = r.get_high_keys();
    assert_eq!(keys.len(), 21);
    assert_eq!(keys[0], KeyLocations::C1R1);
    assert_eq!(keys[20], KeyLocations::LT3);
    assert!(!r.is_pressed(KeyLocations::Mode));
}

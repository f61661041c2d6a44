use split_keyboard::link::{RightKeyReadout, SecondaryLink};
use split_keyboard::readout::{RightKeyLocation, RightReadout};

#[test]
fn frame_round_trip() {
    let k = RightKeyReadout::new(0b1000_0000, 0b0100_0100, 0b0000_1000, 0b0010_0000);
    let frame = k.as_ne_bytes();
    assert_eq!(frame, [0b1000_0000, 0b0100_0100, 0b0000_1000, 0b0010_0000]);
    let r = RightReadout::from_frame(frame);
    assert_eq!(r, RightReadout::new(0b1000_0000, 0b0100_0100, 0b0000_1000, 0b0010_0000));
    assert!(r.is_pressed(&RightKeyLocation::C7R1));
    assert!(r.is_pressed(&RightKeyLocation::C8R2));
    assert!(r.is_pressed(&RightKeyLocation::C12R2));
    assert!(r.is_pressed(&RightKeyLocation::C11R3));
    assert!(r.is_pressed(&RightKeyLocation::RT3));
}

#[test]
fn repeated_readout_sends_one_frame() {
    let mut link = SecondaryLink::new();
    let k = RightKeyReadout::new(1, 2, 3, 4);
    assert_eq!(link.on_scan(k), Some([1, 2, 3, 4]));
    assert_eq!(link.on_scan(k), None);
    assert_eq!(link.on_scan(RightKeyReadout::default()), Some([0, 0, 0, 0]));
}

#[test]
fn released_start_sends_nothing() {
    let mut link = SecondaryLink::new();
    assert_eq!(link.on_scan(RightKeyReadout::default()), None);
}

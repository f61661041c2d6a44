use split_keyboard::layer::LayerLevel;
use split_keyboard::report::{KeyboardReport, KeyboardReportHelper, Modifiers};

#[test]
fn layer_precedence() {
    assert_eq!(LayerLevel::new(true, true), LayerLevel::LayerOneAndTwo);
    assert_eq!(LayerLevel::new(true, false), LayerLevel::LayerOne);
    assert_eq!(LayerLevel::new(false, true), LayerLevel::LayerTwo);
    assert_eq!(LayerLevel::new(false, false), LayerLevel::NoLayer);
}

#[test]
fn report_capacity_drops_extra_key() {
    let mut r = KeyboardReportHelper::new();
    for k in [0x04u8, 0x05, 0x06, 0x07, 0x08, 0x09, 0x0A] {
        r.add_keycode(k);
    }
    assert_eq!(r.get_report(), [0, 0, 0x04, 0x05, 0x06, 0x07, 0x08, 0x09]);
}

#[test]
fn modifier_usages_set_bits_idempotently() {
    let mut r = KeyboardReportHelper::new();
    r.add_keycode(0xE1);
    r.add_keycode(0xE1);
    r.add_keycode(0xE7);
    r.add_keycode(0x04);
    assert_eq!(r.get_report(), [0b1000_0010, 0, 0x04, 0, 0, 0, 0, 0]);
    assert!(!r.is_empty());
}

#[test]
fn every_modifier_has_its_bit() {
    let codes = [0xE0u8, 0xE1, 0xE2, 0xE3, 0xE4, 0xE5, 0xE6, 0xE7];
    for (i, c) in codes.iter().enumerate() {
        let mut r = KeyboardReportHelper::new();
        r.add_keycode(*c);
        assert_eq!(r.get_report()[0], 1u8 << i);
        assert_eq!(r.get_report()[2], 0);
    }
    assert_eq!(Modifiers::from_usage(0xE5), Some(Modifiers::RightShift));
    assert_eq!(Modifiers::from_usage(0xE8), None);
    assert_eq!(Modifiers::RightShift.bits(), 0x20);
}

#[test]
fn modifiers_do_not_take_slots_when_full() {
    let mut r = KeyboardReportHelper::from_values(0, 1, 2, 3, 4, 5, 6);
    r.add_keycode(0x07);
    r.add_keycode(0xE0);
    assert_eq!(r.get_report(), [1, 0, 1, 2, 3, 4, 5, 6]);
}

#[test]
fn emptiness() {
    assert!(KeyboardReportHelper::new().is_empty());
    let mut m = KeyboardReportHelper::new();
    m.add_modifier(Modifiers::LeftCtrl);
    assert!(!m.is_empty());
    assert!(!KeyboardReportHelper::from_values(0, 0, 0, 0, 0, 0, 0).is_empty());
}

#[test]
fn wide_report_takes_twelve_keys() {
    let mut r = KeyboardReport::new();
    for k in 0..12u8 {
        assert!(r.add_keycode(0x04 + k));
    }
    assert!(!r.add_keycode(0x20));
    r.add_modifier(Modifiers::LeftShift);
    let bytes = r.get_sendable_report();
    assert_eq!(bytes[0], 0x02);
    assert_eq!(bytes[1], 0);
    assert_eq!(bytes[2], 0x04);
    assert_eq!(bytes[13], 0x0F);
    assert_eq!(r.pos, 12);
}

#[test]
fn wide_report_descriptor_announces_twelve_slots() {
    let d = KeyboardReport::get_report_descriptor();
    assert_eq!(d.len(), 64);
    assert_eq!(&d[0..6], &[0x05, 0x01, 0x09, 0x06, 0xA1, 0x01]);
    assert_eq!(&d[46..48], &[0x95, 0x0C]);
    assert_eq!(d[63], 0xC0);
}

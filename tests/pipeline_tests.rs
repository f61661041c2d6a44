use split_keyboard::buffer::KeyboardRingBuffer;
use split_keyboard::manager::FullKeyboardManager;
use split_keyboard::profile::{KeyAction, KeyActionSet, KeyBinding, KeyboardProfile};
use split_keyboard::readout::{LeftKeyLocation, LeftReadout, RightKeyLocation, RightReadout, UniversalKey};
use split_keyboard::report::KeyboardReportHelper;

const KEY_A: u8 = 0x04;
const KEY_B: u8 = 0x05;
const KEY_C: u8 = 0x06;
const KEY_D: u8 = 0x07;

fn letters(base: u8) -> KeyActionSet {
    KeyActionSet {
        base_action: KeyAction::HidKey(base),
        layer_one_action: KeyAction::HidKey(KEY_B),
        layer_two_action: KeyAction::HidKey(KEY_C),
        layer_one_and_two_action: KeyAction::HidKey(KEY_D),
    }
}

fn dead() -> KeyActionSet {
    KeyActionSet {
        base_action: KeyAction::DeadKey,
        layer_one_action: KeyAction::DeadKey,
        layer_two_action: KeyAction::DeadKey,
        layer_one_and_two_action: KeyAction::DeadKey,
    }
}

fn macro_of(reports: &[KeyboardReportHelper]) -> KeyAction {
    let mut v: heapless::Vec<KeyboardReportHelper, 30> = heapless::Vec::new();
    for r in reports {
        v.push(*r).unwrap();
    }
    KeyAction::HidReport(v)
}

fn macro_reports() -> [KeyboardReportHelper; 3] {
    [
        KeyboardReportHelper::from_values(0x02, 0x0B, 0, 0, 0, 0, 0),
        KeyboardReportHelper::from_values(0, 0x0C, 0, 0, 0, 0, 0),
        KeyboardReportHelper::from_values(0, 0x0D, 0x0E, 0, 0, 0, 0),
    ]
}

fn profile() -> KeyboardProfile {
    let m = macro_reports();
    let c1r1 = KeyActionSet {
        base_action: KeyAction::HidKey(KEY_A),
        layer_one_action: KeyAction::HidKey(KEY_B),
        layer_two_action: KeyAction::HidKey(KEY_C),
        layer_one_and_two_action: macro_of(&[m[0], m[1], m[2], KeyboardReportHelper::new()]),
    };
    KeyboardProfile {
        layer_key_1: UniversalKey::LeftKey(LeftKeyLocation::LT3),
        layer_key_2: UniversalKey::LeftKey(LeftKeyLocation::LT2),
        bindings: vec![
            KeyBinding { location: UniversalKey::LeftKey(LeftKeyLocation::C1R1), actions: c1r1 },
            KeyBinding { location: UniversalKey::LeftKey(LeftKeyLocation::C2R1), actions: letters(KEY_A) },
            KeyBinding { location: UniversalKey::LeftKey(LeftKeyLocation::LT2), actions: dead() },
            KeyBinding { location: UniversalKey::LeftKey(LeftKeyLocation::LT3), actions: dead() },
            KeyBinding { location: UniversalKey::RightKey(RightKeyLocation::C7R1), actions: letters(KEY_C) },
        ],
    }
}

fn drain(q: &mut KeyboardRingBuffer) -> Vec<[u8; 8]> {
    let mut out = Vec::new();
    while let Some(r) = q.get_report_helper() {
        out.push(r.get_report());
    }
    out
}

#[test]
fn scenario_single_key_on_base_layer() {
    let mut q = KeyboardRingBuffer::new();
    let left = LeftReadout::new(0b0010_0000, 0, 0, 0);
    profile().process_readout(&left, &RightReadout::default(), &mut q);
    assert_eq!(drain(&mut q), vec![[0, 0, KEY_A, 0, 0, 0, 0, 0]]);
}

#[test]
fn scenario_macro_on_both_layers() {
    let mut q = KeyboardRingBuffer::new();
    let left = LeftReadout::new(0b0011_0000, 0, 0, 0b0000_0110);
    profile().process_readout(&left, &RightReadout::default(), &mut q);
    let m = macro_reports();
    assert_eq!(drain(&mut q), vec![m[0].get_report(), m[1].get_report(), m[2].get_report()]);
}

#[test]
fn scenario_nothing_pressed_sends_release() {
    let mut q = KeyboardRingBuffer::new();
    profile().process_readout(&LeftReadout::default(), &RightReadout::default(), &mut q);
    assert_eq!(drain(&mut q), vec![[0, 0, 0, 0, 0, 0, 0, 0]]);
}

#[test]
fn layers_pick_actions_across_halves() {
    let mut q = KeyboardRingBuffer::new();
    let p = profile();
    let right = RightReadout::new(0b1000_0000, 0, 0, 0);
    p.process_readout(&LeftReadout::new(0b0011_0000, 0, 0, 0b0000_0100), &right, &mut q);
    p.process_readout(&LeftReadout::new(0b0001_0000, 0, 0, 0b0000_0010), &right, &mut q);
    assert_eq!(
        drain(&mut q),
        vec![[0, 0, KEY_B, KEY_B, KEY_B, 0, 0, 0], [0, 0, KEY_C, KEY_C, 0, 0, 0, 0]]
    );
}

#[test]
fn macro_stops_at_terminator() {
    let m = macro_reports();
    let action = macro_of(&[m[0], m[1], KeyboardReportHelper::new(), m[2]]);
    let mut q = KeyboardRingBuffer::new();
    let mut report = KeyboardReportHelper::new();
    report.add_keycode(KEY_A);
    assert!(action.add_to_buffer(&mut q, &mut report));
    assert_eq!(drain(&mut q), vec![m[0].get_report(), m[1].get_report()]);
}

#[test]
fn macro_without_terminator_sends_all() {
    let m = macro_reports();
    let action = macro_of(&m);
    let mut q = KeyboardRingBuffer::new();
    let mut report = KeyboardReportHelper::new();
    assert!(action.add_to_buffer(&mut q, &mut report));
    assert_eq!(drain(&mut q).len(), 3);
}

#[test]
fn dead_and_single_keys_do_not_end_resolution() {
    let mut q = KeyboardRingBuffer::new();
    let mut report = KeyboardReportHelper::new();
    assert!(!KeyAction::DeadKey.add_to_buffer(&mut q, &mut report));
    assert!(!KeyAction::HidKey(KEY_D).add_to_buffer(&mut q, &mut report));
    assert_eq!(report.get_report(), [0, 0, KEY_D, 0, 0, 0, 0, 0]);
    assert_eq!(q.get_report_helper(), None);
}

#[test]
fn manager_resolves_on_change_only() {
    let p = profile();
    let mut m = FullKeyboardManager::new(KeyboardRingBuffer::new());
    let left = LeftReadout::new(0b0010_0000, 0, 0, 0);
    assert!(m.on_left_scan(left, &p));
    assert!(!m.on_left_scan(left, &p));
    assert_eq!(m.get_report_helper().map(|r| r.get_report()), Some([0, 0, KEY_A, 0, 0, 0, 0, 0]));
    assert_eq!(m.get_report_helper(), None);
    m.update_right_readout(RightReadout::new(0b1000_0000, 0, 0, 0), &p);
    assert_eq!(m.get_report_helper().map(|r| r.get_report()), Some([0, 0, KEY_A, KEY_C, 0, 0, 0, 0]));
    m.update_left_readout(LeftReadout::default(), &p);
    assert_eq!(m.get_report_helper().map(|r| r.get_report()), Some([0, 0, KEY_C, 0, 0, 0, 0, 0]));
}

#[test]
fn action_set_lookup_finds_first_binding() {
    let p = profile();
    let set = p.get_action_set(&UniversalKey::RightKey(RightKeyLocation::C7R1)).unwrap();
    assert!(matches!(set.base_action, KeyAction::HidKey(KEY_C)));
    let c1r1 = p.get_action_set(&UniversalKey::LeftKey(LeftKeyLocation::C1R1)).unwrap();
    assert!(matches!(c1r1.layer_one_and_two_action, KeyAction::HidReport(_)));
    assert!(p.get_action_set(&UniversalKey::RightKey(RightKeyLocation::RT1)).is_none());
}

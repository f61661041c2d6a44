//! HID keyboard reports: one modifier byte, a reserved byte and a fixed number of
//! keycode slots filled in order.
use vstd::prelude::*;

verus! {

/// Keycode slots of a boot-protocol keyboard report.
pub const REPORT_KEYS: usize = 6;

/// Keycode slots of the wide report.
pub const WIDE_REPORT_KEYS: usize = 12;

/// What a report holds: its modifier byte and the keycodes written so far, in order.
pub struct ReportView {
    pub modifier: u8,
    pub keys: Seq<u8>,
}

/// The eight modifier keys, each bound to one bit of the modifier byte.
#[derive(Clone, Copy, PartialEq, Eq, Structural, Debug)]
pub enum Modifiers {
    LeftCtrl,
    LeftShift,
    LeftAlt,
    LeftGui,
    RightCtrl,
    RightShift,
    RightAlt,
    RightGui,
}

/// The bit of the modifier byte that `m` sets.
pub open spec fn modifier_bits(m: Modifiers) -> u8 {
    match m {
        Modifiers::LeftCtrl => 0x01,
        Modifiers::LeftShift => 0x02,
        Modifiers::LeftAlt => 0x04,
        Modifiers::LeftGui => 0x08,
        Modifiers::RightCtrl => 0x10,
        Modifiers::RightShift => 0x20,
        Modifiers::RightAlt => 0x40,
        Modifiers::RightGui => 0x80,
    }
}

/// The modifier that the HID usage `code` denotes, if it is one of the eight
/// modifier usages (Left Control 0xE0 to Right GUI 0xE7).
pub open spec fn usage_modifier(code: u8) -> Option<Modifiers> {
    if code == 0xE0 {
        Some(Modifiers::LeftCtrl)
    } else if code == 0xE1 {
        Some(Modifiers::LeftShift)
    } else if code == 0xE2 {
        Some(Modifiers::LeftAlt)
    } else if code == 0xE3 {
        Some(Modifiers::LeftGui)
    } else if code == 0xE4 {
        Some(Modifiers::RightCtrl)
    } else if code == 0xE5 {
        Some(Modifiers::RightShift)
    } else if code == 0xE6 {
        Some(Modifiers::RightAlt)
    } else if code == 0xE7 {
        Some(Modifiers::RightGui)
    } else {
        None
    }
}

impl Modifiers {
    /// The bit of the modifier byte that this modifier sets.
    pub fn bits(&self) -> (r: u8)
        ensures
            r == modifier_bits(*self),
    {
        match self {
            Modifiers::LeftCtrl => 0x01,
            Modifiers::LeftShift => 0x02,
            Modifiers::LeftAlt => 0x04,
            Modifiers::LeftGui => 0x08,
            Modifiers::RightCtrl => 0x10,
            Modifiers::RightShift => 0x20,
            Modifiers::RightAlt => 0x40,
            Modifiers::RightGui => 0x80,
        }
    }

    /// The modifier that the HID usage `code` denotes, if any.
    pub fn from_usage(code: u8) -> (r: Option<Modifiers>)
        ensures
            r == usage_modifier(code),
    {
        if code == 0xE0 {
            Some(Modifiers::LeftCtrl)
        } else if code == 0xE1 {
            Some(Modifiers::LeftShift)
        } else if code == 0xE2 {
            Some(Modifiers::LeftAlt)
        } else if code == 0xE3 {
            Some(Modifiers::LeftGui)
        } else if code == 0xE4 {
            Some(Modifiers::RightCtrl)
        } else if code == 0xE5 {
            Some(Modifiers::RightShift)
        } else if code == 0xE6 {
            Some(Modifiers::RightAlt)
        } else if code == 0xE7 {
            Some(Modifiers::RightGui)
        } else {
            None
        }
    }
}

/// The report with no modifier and no keycode.
pub open spec fn empty_report() -> ReportView {
    ReportView { modifier: 0, keys: Seq::empty() }
}

/// A report is empty when it holds no keycode and no modifier; an empty report
/// ends a macro's report list.
pub open spec fn report_is_empty(r: ReportView) -> bool {
    r.modifier == 0 && r.keys.len() == 0
}

/// The report after one keycode contribution: a modifier usage sets its bit, any
/// other usage takes the next free slot, and is dropped when every slot is taken.
pub open spec fn with_keycode(r: ReportView, code: u8) -> ReportView {
    match usage_modifier(code) {
        Some(m) => ReportView { modifier: r.modifier | modifier_bits(m), keys: r.keys },
        None => if r.keys.len() < REPORT_KEYS {
            ReportView { modifier: r.modifier, keys: r.keys.push(code) }
        } else {
            r
        },
    }
}

/// The report after the contributions of `codes`, in order.
pub open spec fn with_keycodes(r: ReportView, codes: Seq<u8>) -> ReportView
    decreases codes.len(),
{
    if codes.len() == 0 {
        r
    } else {
        with_keycode(with_keycodes(r, codes.drop_last()), codes.last())
    }
}

/// The report as sent to the host: modifier byte, reserved byte, then the keycode
/// slots, unused ones zero.
pub open spec fn report_bytes(r: ReportView) -> Seq<u8> {
    seq![r.modifier, 0u8] + r.keys + Seq::new((REPORT_KEYS - r.keys.len()) as nat, |i: int| 0u8)
}

/// Keycodes that are no modifier fill the slots of an empty report in order, as
/// far as the slots go.
pub proof fn lemma_keycodes_fill_slots(codes: Seq<u8>)
    requires
        forall|i: int| 0 <= i < codes.len() ==> usage_modifier(#[trigger] codes[i]).is_none(),
    ensures
        with_keycodes(empty_report(), codes).modifier == 0,
        with_keycodes(empty_report(), codes).keys == codes.take(
            if codes.len() < REPORT_KEYS {
                codes.len() as int
            } else {
                REPORT_KEYS as int
            },
        ),
    decreases codes.len(),
{
    if codes.len() == 0 {
        assert(codes.take(0) =~= Seq::<u8>::empty());
    } else {
        let init = codes.drop_last();
        assert forall|i: int| 0 <= i < init.len() implies usage_modifier(#[trigger] init[i]).is_none() by {
            assert(init[i] == codes[i]);
        }
        lemma_keycodes_fill_slots(init);
        assert(usage_modifier(codes[codes.len() - 1]).is_none());
        if init.len() < REPORT_KEYS {
            assert(codes.take(codes.len() as int) =~= init.take(init.len() as int).push(codes.last()));
        } else {
            assert(codes.take(REPORT_KEYS as int) =~= init.take(REPORT_KEYS as int));
        }
    }
}

/// A report holds at most its slot count of keycodes: of slot count plus one
/// keycodes added to an empty report, the first ones fill every slot and the last
/// one is dropped.
pub proof fn lemma_report_capacity(codes: Seq<u8>)
    requires
        codes.len() == REPORT_KEYS + 1,
        forall|i: int| 0 <= i < codes.len() ==> usage_modifier(#[trigger] codes[i]).is_none(),
    ensures
        with_keycodes(empty_report(), codes).keys == codes.take(REPORT_KEYS as int),
        with_keycodes(empty_report(), codes).keys.len() == REPORT_KEYS,
        with_keycodes(empty_report(), codes) == with_keycodes(empty_report(), codes.drop_last()),
{
    lemma_keycodes_fill_slots(codes);
    lemma_keycodes_fill_slots(codes.drop_last());
    assert(codes.drop_last().take(REPORT_KEYS as int) =~= codes.take(REPORT_KEYS as int));
}

/// A boot-protocol keyboard report being filled: keycodes are written to the slots
/// in order up to the slot count; modifiers go to the modifier byte.
#[derive(Clone, Copy, PartialEq, Eq, Debug)]
pub struct KeyboardReportHelper {
    modifier: u8,
    keycodes: [u8; 6],
    pos: usize,
}

impl View for KeyboardReportHelper {
    type V = ReportView;

    closed spec fn view(&self) -> ReportView {
        ReportView { modifier: self.modifier, keys: self.keycodes@.take(self.pos as int) }
    }
}

impl KeyboardReportHelper {
    /// The slot cursor never passes the slot count, and the slots past it are zero.
    #[verifier::type_invariant]
    spec fn slots_in_order(&self) -> bool {
        &&& self.pos <= REPORT_KEYS
        &&& forall|i: int| self.pos <= i < REPORT_KEYS ==> self.keycodes@[i] == 0
    }

    /// An empty report.
    pub fn new() -> (r: KeyboardReportHelper)
        ensures
            r@ == empty_report(),
    {
        let r = KeyboardReportHelper { modifier: 0, keycodes: [0u8; 6], pos: 0 };
        assert(r@.keys =~= Seq::<u8>::empty());
        r
    }

    /// A full report with the given modifier byte and six keycodes.
    pub fn from_values(
        modifier: u8,
        key_1: u8,
        key_2: u8,
        key_3: u8,
        key_4: u8,
        key_5: u8,
        key_6: u8,
    ) -> (r: KeyboardReportHelper)
        ensures
            r@ == (ReportView { modifier, keys: seq![key_1, key_2, key_3, key_4, key_5, key_6] }),
    {
        let r = KeyboardReportHelper {
            keycodes: [key_1, key_2, key_3, key_4, key_5, key_6],
            modifier: modifier,
            pos: 6,
        };
        assert(r@.keys =~= seq![key_1, key_2, key_3, key_4, key_5, key_6]);
        r
    }

    /// Whether the report holds no keycode and no modifier.
    pub fn is_empty(&self) -> (r: bool)
        ensures
            r == report_is_empty(self@),
    {
        proof {
            use_type_invariant(self);
        }
        self.pos == 0 && self.modifier == 0
    }

    /// Adds the HID usage `key`: a modifier usage sets its bit; any other usage
    /// takes the next slot, or is dropped when the slots are full.
    pub fn add_keycode(&mut self, key: u8)
        ensures
            final(self)@ == with_keycode(old(self)@, key),
    {
        proof {
            use_type_invariant(&*self);
        }
        match Modifiers::from_usage(key) {
            Some(m) => self.add_modifier(m),
            None => {
                if self.pos >= REPORT_KEYS {
                    return;
                }
                let ghost before = self@;
                let mut keycodes = self.keycodes;
                keycodes[self.pos] = key;
                *self = KeyboardReportHelper { modifier: self.modifier, keycodes, pos: self.pos + 1 };
                assert(self@.keys =~= before.keys.push(key));
            },
        }
    }

    /// Sets the bit of `modifier` in the modifier byte.
    pub fn add_modifier(&mut self, modifier: Modifiers)
        ensures
            final(self)@ == (ReportView {
                modifier: old(self)@.modifier | modifier_bits(modifier),
                keys: old(self)@.keys,
            }),
    {
        proof {
            use_type_invariant(&*self);
        }
        *self = KeyboardReportHelper {
            modifier: self.modifier | modifier.bits(),
            keycodes: self.keycodes,
            pos: self.pos,
        };
    }

    /// The report as sent to the host: modifier byte, reserved byte, six keycode slots.
    pub fn get_report(&self) -> (r: [u8; 8])
        ensures
            r@ == report_bytes(self@),
    {
        proof {
            use_type_invariant(self);
        }
        let k = self.keycodes;
        let r = [self.modifier, 0, k[0], k[1], k[2], k[3], k[4], k[5]];
        assert(r@ =~= report_bytes(self@));
        r
    }
}

/// A report with twelve keycode slots, for hosts that accept the wide report
/// descriptor below.
#[derive(Clone, Copy, Debug)]
pub struct KeyboardReport {
    pub modifier: u8,
    pub reserved: u8,
    pub keycodes: [u8; 12],
    pub pos: usize,
}

/// The report descriptor of the wide report: eight modifier bits, a reserved byte,
/// five LED output bits with three bits of padding, and twelve keycode slots.
pub open spec fn wide_report_descriptor() -> Seq<u8> {
    seq![0x05u8, 0x01, 0x09, 0x06, 0xa1, 0x01, 0x05, 0x07, 0x19, 0xe0, 0x29, 0xe7, 0x15, 0x00, 0x25, 0x01, 0x75, 0x01, 0x95, 0x08, 0x81, 0x02, 0x95, 0x01, 0x75, 0x08, 0x81, 0x01, 0x95, 0x05, 0x75, 0x01, 0x05, 0x08, 0x19, 0x01, 0x29, 0x05, 0x91, 0x02, 0x95, 0x01, 0x75, 0x03, 0x91, 0x01, 0x95, 0x0c, 0x75, 0x08, 0x15, 0x00, 0x26, 0x97, 0x00, 0x05, 0x07, 0x19, 0x00, 0x29, 0x97, 0x81, 0x00, 0xc0]
}

impl KeyboardReport {
    /// An empty report.
    pub fn new() -> (r: KeyboardReport)
        ensures
            r.modifier == 0,
            r.reserved == 0,
            r.pos == 0,
            forall|i: int| 0 <= i < WIDE_REPORT_KEYS ==> r.keycodes@[i] == 0,
    {
        KeyboardReport { modifier: 0, reserved: 0, keycodes: [0u8; 12], pos: 0 }
    }

    /// Writes `key` to the next free slot and returns `true`; returns `false` and
    /// leaves the report as it was when no slot is free.
    pub fn add_keycode(&mut self, key: u8) -> (r: bool)
        ensures
            r == (old(self).pos < WIDE_REPORT_KEYS),
            r ==> final(self).keycodes@ == old(self).keycodes@.update(old(self).pos as int, key)
                && final(self).pos == old(self).pos + 1 && final(self).modifier == old(self).modifier
                && final(self).reserved == old(self).reserved,
            !r ==> *final(self) == *old(self),
    {
        if self.pos >= WIDE_REPORT_KEYS {
            return false;
        }
        self.keycodes[self.pos] = key;
        self.pos = self.pos + 1;
        true
    }

    /// Sets the bit of `modifier` in the modifier byte.
    pub fn add_modifier(&mut self, modifier: Modifiers)
        ensures
            final(self).modifier == old(self).modifier | modifier_bits(modifier),
            final(self).reserved == old(self).reserved,
            final(self).keycodes == old(self).keycodes,
            final(self).pos == old(self).pos,
    {
        self.modifier = self.modifier | modifier.bits();
    }

    /// The report descriptor that announces this report's layout to the host.
    pub fn get_report_descriptor() -> (r: [u8; 64])
        ensures
            r@ == wide_report_descriptor(),
    {
        let r = [
            0x05, 0x01,  // Usage Page (Generic Desktop)
            0x09, 0x06,  // Usage (Keyboard)
            0xa1, 0x01,  // Collection (Application)
            0x05, 0x07,  // Usage Page (Keyboard/Keypad)
            0x19, 0xe0,  // Usage Minimum (Left Control)
            0x29, 0xe7,  // Usage Maximum (Right GUI)
            0x15, 0x00,  // Logical Minimum (0)
            0x25, 0x01,  // Logical Maximum (1)
            0x75, 0x01,  // Report Size (1)
            0x95, 0x08,  // Report Count (8)
            0x81, 0x02,  // Input (Data, Variable, Absolute): modifier bits
            0x95, 0x01,  // Report Count (1)
            0x75, 0x08,  // Report Size (8)
            0x81, 0x01,  // Input (Constant): reserved byte
            0x95, 0x05,  // Report Count (5)
            0x75, 0x01,  // Report Size (1)
            0x05, 0x08,  // Usage Page (LEDs)
            0x19, 0x01,  // Usage Minimum (Num Lock)
            0x29, 0x05,  // Usage Maximum (Kana)
            0x91, 0x02,  // Output (Data, Variable, Absolute): LED bits
            0x95, 0x01,  // Report Count (1)
            0x75, 0x03,  // Report Size (3)
            0x91, 0x01,  // Output (Constant): LED padding
            0x95, 0x0c,  // Report Count (12): keycode slots
            0x75, 0x08,  // Report Size (8)
            0x15, 0x00,  // Logical Minimum (0)
            0x26, 0x97, 0x00,  // Logical Maximum (151)
            0x05, 0x07,  // Usage Page (Keyboard/Keypad)
            0x19, 0x00,  // Usage Minimum (0)
            0x29, 0x97,  // Usage Maximum (151)
            0x81, 0x00,  // Input (Data, Array, Absolute): keycodes
            0xc0,  // End Collection
        ];
        assert(r@ =~= wide_report_descriptor());
        r
    }

    /// The report as sent to the host: modifier byte, reserved byte, twelve keycode
    /// slots.
    pub fn get_sendable_report(&self) -> (r: [u8; 14])
        ensures
            r@ == seq![self.modifier, self.reserved] + self.keycodes@,
    {
        let k = self.keycodes;
        let r = [
            self.modifier,
            self.reserved,
            k[0],
            k[1],
            k[2],
            k[3],
            k[4],
            k[5],
            k[6],
            k[7],
            k[8],
            k[9],
            k[10],
            k[11],
        ];
        assert(r@ =~= seq![self.modifier, self.reserved] + self.keycodes@);
        r
    }
}

} // verus!

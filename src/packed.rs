//! The packed readout of a single-board build: one sixteen-bit word and one byte
//! for all keys of the left half and the mode key.
use crate::readout::{test_bits, bit_set, lemma_pack_byte, pack_byte, pack_samples};
use vstd::prelude::*;

verus! {

/// Key positions of the packed readout: the left half's keys and the mode key.
#[derive(Clone, Copy, PartialEq, Eq, Structural, Debug)]
pub enum KeyLocations {
    C1R1,
    C2R1,
    C3R1,
    C4R1,
    C5R1,
    C6R1,
    C1R2,
    C2R2,
    C3R2,
    C4R2,
    C5R2,
    C6R2,
    C1R3,
    C2R3,
    C3R3,
    C4R3,
    C5R3,
    C6R3,
    LT1,
    LT2,
    LT3,
    Mode,
}

/// Where a key sits in a packed readout: in the word (`true`) or in the byte, and its
/// bit mask. The word carries row one's columns one to six in bits 15 to 10, row
/// two's in bits 9 to 4, and row three's columns one to four in bits 3 to 0; the byte
/// carries row three's columns five and six in bits 7 and 6, the thumb keys one to
/// three in bits 5 to 3 and the mode key in bit 2.
pub open spec fn packed_slot(loc: KeyLocations) -> (bool, u16) {
    match loc {
        KeyLocations::C1R1 => (true, 0x8000),
        KeyLocations::C2R1 => (true, 0x4000),
        KeyLocations::C3R1 => (true, 0x2000),
        KeyLocations::C4R1 => (true, 0x1000),
        KeyLocations::C5R1 => (true, 0x0800),
        KeyLocations::C6R1 => (true, 0x0400),
        KeyLocations::C1R2 => (true, 0x0200),
        KeyLocations::C2R2 => (true, 0x0100),
        KeyLocations::C3R2 => (true, 0x0080),
        KeyLocations::C4R2 => (true, 0x0040),
        KeyLocations::C5R2 => (true, 0x0020),
        KeyLocations::C6R2 => (true, 0x0010),
        KeyLocations::C1R3 => (true, 0x0008),
        KeyLocations::C2R3 => (true, 0x0004),
        KeyLocations::C3R3 => (true, 0x0002),
        KeyLocations::C4R3 => (true, 0x0001),
        KeyLocations::C5R3 => (false, 0x0080),
        KeyLocations::C6R3 => (false, 0x0040),
        KeyLocations::LT1 => (false, 0x0020),
        KeyLocations::LT2 => (false, 0x0010),
        KeyLocations::LT3 => (false, 0x0008),
        KeyLocations::Mode => (false, 0x0004),
    }
}

/// Whether key `loc` is down in the packed readout `(word, byte)`.
pub open spec fn packed_pressed(v: (u16, u8), loc: KeyLocations) -> bool {
    if packed_slot(loc).0 {
        v.0 & packed_slot(loc).1 != 0
    } else {
        bit_set(v.1, packed_slot(loc).1 as u8)
    }
}

/// The word of a packed readout: `high` in bits 15 to 8, `low` in bits 7 to 0.
#[verifier::opaque]
pub open spec fn word_of(high: u8, low: u8) -> u16 {
    ((high as u16) << 8u16) | (low as u16)
}

/// The sample that key `loc` was scanned as.
pub open spec fn packed_sample(
    row_1: Seq<bool>,
    row_2: Seq<bool>,
    row_3: Seq<bool>,
    thumbs: Seq<bool>,
    mode: bool,
    loc: KeyLocations,
) -> bool {
    match loc {
        KeyLocations::C1R1 => row_1[0],
        KeyLocations::C2R1 => row_1[1],
        KeyLocations::C3R1 => row_1[2],
        KeyLocations::C4R1 => row_1[3],
        KeyLocations::C5R1 => row_1[4],
        KeyLocations::C6R1 => row_1[5],
        KeyLocations::C1R2 => row_2[0],
        KeyLocations::C2R2 => row_2[1],
        KeyLocations::C3R2 => row_2[2],
        KeyLocations::C4R2 => row_2[3],
        KeyLocations::C5R2 => row_2[4],
        KeyLocations::C6R2 => row_2[5],
        KeyLocations::C1R3 => row_3[0],
        KeyLocations::C2R3 => row_3[1],
        KeyLocations::C3R3 => row_3[2],
        KeyLocations::C4R3 => row_3[3],
        KeyLocations::C5R3 => row_3[4],
        KeyLocations::C6R3 => row_3[5],
        KeyLocations::LT1 => thumbs[0],
        KeyLocations::LT2 => thumbs[1],
        KeyLocations::LT3 => thumbs[2],
        KeyLocations::Mode => mode,
    }
}

/// Each bit of a word is the bit of the byte it came from.
proof fn lemma_word_bits(high: u8, low: u8)
    ensures
        (word_of(high, low) & 0x0001 != 0) == bit_set(low, 0x01),
        (word_of(high, low) & 0x0002 != 0) == bit_set(low, 0x02),
        (word_of(high, low) & 0x0004 != 0) == bit_set(low, 0x04),
        (word_of(high, low) & 0x0008 != 0) == bit_set(low, 0x08),
        (word_of(high, low) & 0x0010 != 0) == bit_set(low, 0x10),
        (word_of(high, low) & 0x0020 != 0) == bit_set(low, 0x20),
        (word_of(high, low) & 0x0040 != 0) == bit_set(low, 0x40),
        (word_of(high, low) & 0x0080 != 0) == bit_set(low, 0x80),
        (word_of(high, low) & 0x0100 != 0) == bit_set(high, 0x01),
        (word_of(high, low) & 0x0200 != 0) == bit_set(high, 0x02),
        (word_of(high, low) & 0x0400 != 0) == bit_set(high, 0x04),
        (word_of(high, low) & 0x0800 != 0) == bit_set(high, 0x08),
        (word_of(high, low) & 0x1000 != 0) == bit_set(high, 0x10),
        (word_of(high, low) & 0x2000 != 0) == bit_set(high, 0x20),
        (word_of(high, low) & 0x4000 != 0) == bit_set(high, 0x40),
        (word_of(high, low) & 0x8000 != 0) == bit_set(high, 0x80),
{
    reveal(bit_set);
    reveal(word_of);
    assert({
        &&& ((((high as u16) << 8u16) | (low as u16)) & 0x0001 != 0) == (low & 0x01 != 0)
        &&& ((((high as u16) << 8u16) | (low as u16)) & 0x0002 != 0) == (low & 0x02 != 0)
        &&& ((((high as u16) << 8u16) | (low as u16)) & 0x0004 != 0) == (low & 0x04 != 0)
        &&& ((((high as u16) << 8u16) | (low as u16)) & 0x0008 != 0) == (low & 0x08 != 0)
        &&& ((((high as u16) << 8u16) | (low as u16)) & 0x0010 != 0) == (low & 0x10 != 0)
        &&& ((((high as u16) << 8u16) | (low as u16)) & 0x0020 != 0) == (low & 0x20 != 0)
        &&& ((((high as u16) << 8u16) | (low as u16)) & 0x0040 != 0) == (low & 0x40 != 0)
        &&& ((((high as u16) << 8u16) | (low as u16)) & 0x0080 != 0) == (low & 0x80 != 0)
        &&& ((((high as u16) << 8u16) | (low as u16)) & 0x0100 != 0) == (high & 0x01 != 0)
        &&& ((((high as u16) << 8u16) | (low as u16)) & 0x0200 != 0) == (high & 0x02 != 0)
        &&& ((((high as u16) << 8u16) | (low as u16)) & 0x0400 != 0) == (high & 0x04 != 0)
        &&& ((((high as u16) << 8u16) | (low as u16)) & 0x0800 != 0) == (high & 0x08 != 0)
        &&& ((((high as u16) << 8u16) | (low as u16)) & 0x1000 != 0) == (high & 0x10 != 0)
        &&& ((((high as u16) << 8u16) | (low as u16)) & 0x2000 != 0) == (high & 0x20 != 0)
        &&& ((((high as u16) << 8u16) | (low as u16)) & 0x4000 != 0) == (high & 0x40 != 0)
        &&& ((((high as u16) << 8u16) | (low as u16)) & 0x8000 != 0) == (high & 0x80 != 0)
    }) by (bit_vector);
}

/// A packed readout built from samples reports key `loc` as its sample.
proof fn lemma_packed_sample(
    row_1: Seq<bool>,
    row_2: Seq<bool>,
    row_3: Seq<bool>,
    thumbs: Seq<bool>,
    mode: bool,
    loc: KeyLocations,
)
    ensures
        packed_pressed(
            (
                word_of(
                    pack_byte(row_2[1], row_2[0], row_1[5], row_1[4], row_1[3], row_1[2], row_1[1], row_1[0]),
                    pack_byte(row_3[3], row_3[2], row_3[1], row_3[0], row_2[5], row_2[4], row_2[3], row_2[2]),
                ),
                pack_byte(false, false, mode, thumbs[2], thumbs[1], thumbs[0], row_3[5], row_3[4]),
            ),
            loc,
        ) == packed_sample(row_1, row_2, row_3, thumbs, mode, loc),
{
    let high = pack_byte(row_2[1], row_2[0], row_1[5], row_1[4], row_1[3], row_1[2], row_1[1], row_1[0]);
    let low = pack_byte(row_3[3], row_3[2], row_3[1], row_3[0], row_2[5], row_2[4], row_2[3], row_2[2]);
    let (in_word, mask) = packed_slot(loc);
    if in_word {
        lemma_word_bits(high, low);
        if mask >= 0x100 {
            lemma_pack_byte(row_2[1], row_2[0], row_1[5], row_1[4], row_1[3], row_1[2], row_1[1], row_1[0]);
        } else {
            lemma_pack_byte(row_3[3], row_3[2], row_3[1], row_3[0], row_2[5], row_2[4], row_2[3], row_2[2]);
        }
    } else {
        lemma_pack_byte(false, false, mode, thumbs[2], thumbs[1], thumbs[0], row_3[5], row_3[4]);
    }
}

/// The `k`-th of the twenty-one keys listed by [`KeyPressReadout::get_high_keys`]:
/// every key but the mode key, in declaration order.
pub open spec fn listed_key(k: int) -> KeyLocations {
    if k == 0 {
        KeyLocations::C1R1
    } else if k == 1 {
        KeyLocations::C2R1
    } else if k == 2 {
        KeyLocations::C3R1
    } else if k == 3 {
        KeyLocations::C4R1
    } else if k == 4 {
        KeyLocations::C5R1
    } else if k == 5 {
        KeyLocations::C6R1
    } else if k == 6 {
        KeyLocations::C1R2
    } else if k == 7 {
        KeyLocations::C2R2
    } else if k == 8 {
        KeyLocations::C3R2
    } else if k == 9 {
        KeyLocations::C4R2
    } else if k == 10 {
        KeyLocations::C5R2
    } else if k == 11 {
        KeyLocations::C6R2
    } else if k == 12 {
        KeyLocations::C1R3
    } else if k == 13 {
        KeyLocations::C2R3
    } else if k == 14 {
        KeyLocations::C3R3
    } else if k == 15 {
        KeyLocations::C4R3
    } else if k == 16 {
        KeyLocations::C5R3
    } else if k == 17 {
        KeyLocations::C6R3
    } else if k == 18 {
        KeyLocations::LT1
    } else if k == 19 {
        KeyLocations::LT2
    } else if k == 20 {
        KeyLocations::LT3
    } else {
        KeyLocations::LT3
    }
}

/// The pressed keys among the first `n` listed keys, in list order.
pub open spec fn pressed_upto(v: (u16, u8), n: nat) -> Seq<KeyLocations>
    decreases n,
{
    if n == 0 {
        Seq::empty()
    } else if packed_pressed(v, listed_key(n - 1)) {
        pressed_upto(v, (n - 1) as nat).push(listed_key(n - 1))
    } else {
        pressed_upto(v, (n - 1) as nat)
    }
}

/// The keys that a fixed-capacity list of twenty-one key positions holds, in order.
pub uninterp spec fn location_list(v: heapless::Vec<KeyLocations, 21>) -> Seq<KeyLocations>;

/// Relies on heapless::Vec::new: a new vector is empty.
#[verifier::external_body]
fn empty_locations() -> (r: heapless::Vec<KeyLocations, 21>)
    ensures
        location_list(r) == Seq::<KeyLocations>::empty(),
{
    heapless::Vec::new()
}

/// Relies on heapless::Vec::push: below capacity the item is appended and `Ok`
/// returned; at capacity the vector is left as it was and `Err` returned.
#[verifier::external_body]
fn push_location(v: &mut heapless::Vec<KeyLocations, 21>, loc: KeyLocations) -> (r: bool)
    ensures
        location_list(*old(v)).len() < 21 ==> r && location_list(*final(v)) == location_list(
            *old(v),
        ).push(loc),
        location_list(*old(v)).len() >= 21 ==> !r && location_list(*final(v)) == location_list(
            *old(v),
        ),
{
    v.push(loc).is_ok()
}

impl KeyLocations {
    /// Where this key sits: in the word or the byte, and its bit mask.
    pub fn slot(&self) -> (r: (bool, u16))
        ensures
            r == packed_slot(*self),
    {
        match self {
            KeyLocations::C1R1 => (true, 0x8000),
            KeyLocations::C2R1 => (true, 0x4000),
            KeyLocations::C3R1 => (true, 0x2000),
            KeyLocations::C4R1 => (true, 0x1000),
            KeyLocations::C5R1 => (true, 0x0800),
            KeyLocations::C6R1 => (true, 0x0400),
            KeyLocations::C1R2 => (true, 0x0200),
            KeyLocations::C2R2 => (true, 0x0100),
            KeyLocations::C3R2 => (true, 0x0080),
            KeyLocations::C4R2 => (true, 0x0040),
            KeyLocations::C5R2 => (true, 0x0020),
            KeyLocations::C6R2 => (true, 0x0010),
            KeyLocations::C1R3 => (true, 0x0008),
            KeyLocations::C2R3 => (true, 0x0004),
            KeyLocations::C3R3 => (true, 0x0002),
            KeyLocations::C4R3 => (true, 0x0001),
            KeyLocations::C5R3 => (false, 0x0080),
            KeyLocations::C6R3 => (false, 0x0040),
            KeyLocations::LT1 => (false, 0x0020),
            KeyLocations::LT2 => (false, 0x0010),
            KeyLocations::LT3 => (false, 0x0008),
            KeyLocations::Mode => (false, 0x0004),
        }
    }

    /// The `k`-th listed key.
    fn listed(k: usize) -> (r: KeyLocations)
        requires
            k < 21,
        ensures
            r == listed_key(k as int),
    {
        match k {
        0 => KeyLocations::C1R1,
        1 => KeyLocations::C2R1,
        2 => KeyLocations::C3R1,
        3 => KeyLocations::C4R1,
        4 => KeyLocations::C5R1,
        5 => KeyLocations::C6R1,
        6 => KeyLocations::C1R2,
        7 => KeyLocations::C2R2,
        8 => KeyLocations::C3R2,
        9 => KeyLocations::C4R2,
        10 => KeyLocations::C5R2,
        11 => KeyLocations::C6R2,
        12 => KeyLocations::C1R3,
        13 => KeyLocations::C2R3,
        14 => KeyLocations::C3R3,
        15 => KeyLocations::C4R3,
        16 => KeyLocations::C5R3,
        17 => KeyLocations::C6R3,
        18 => KeyLocations::LT1,
        19 => KeyLocations::LT2,
            _ => KeyLocations::LT3,
        }
    }
}

/// The word and byte of a packed readout, from its samples.
fn pack_readout(
    row_1: &[bool; 6],
    row_2: &[bool; 6],
    row_3: &[bool; 6],
    thumbs: &[bool; 3],
    mode: bool,
) -> (r: (u16, u8))
    ensures
        r == (
            word_of(
                pack_byte(row_2@[1], row_2@[0], row_1@[5], row_1@[4], row_1@[3], row_1@[2], row_1@[1], row_1@[0]),
                pack_byte(row_3@[3], row_3@[2], row_3@[1], row_3@[0], row_2@[5], row_2@[4], row_2@[3], row_2@[2]),
            ),
            pack_byte(false, false, mode, thumbs@[2], thumbs@[1], thumbs@[0], row_3@[5], row_3@[4]),
        ),
{
    let (a0, a1, a2, a3, a4, a5) = (row_1[0], row_1[1], row_1[2], row_1[3], row_1[4], row_1[5]);
    let (b0, b1, b2, b3, b4, b5) = (row_2[0], row_2[1], row_2[2], row_2[3], row_2[4], row_2[5]);
    let (c0, c1, c2, c3, c4, c5) = (row_3[0], row_3[1], row_3[2], row_3[3], row_3[4], row_3[5]);
    let (t0, t1, t2) = (thumbs[0], thumbs[1], thumbs[2]);
    let high = pack_samples(b1, b0, a5, a4, a3, a2, a1, a0);
    let low = pack_samples(c3, c2, c1, c0, b5, b4, b3, b2);
    let byte = pack_samples(false, false, mode, t2, t1, t0, c5, c4);
    proof {
        reveal(word_of);
    }
    (((high as u16) << 8u16) | (low as u16), byte)
}

/// A packed readout of one scan.
#[derive(Clone, Copy, PartialEq, Eq, Structural, Debug)]
pub struct KeyPressReadout {
    data_1: u16,
    data_2: u8,
}

impl View for KeyPressReadout {
    type V = (u16, u8);

    closed spec fn view(&self) -> (u16, u8) {
        (self.data_1, self.data_2)
    }
}

impl KeyPressReadout {
    /// The readout of one scan from its samples (`true` is a closed switch): the
    /// six column samples of rows one to three, the three thumb keys and the mode key.
    pub fn from_samples(
        row_1: [bool; 6],
        row_2: [bool; 6],
        row_3: [bool; 6],
        thumbs: [bool; 3],
        mode: bool,
    ) -> (r: KeyPressReadout)
        ensures
            r@ == (
                word_of(
                    pack_byte(row_2@[1], row_2@[0], row_1@[5], row_1@[4], row_1@[3], row_1@[2], row_1@[1], row_1@[0]),
                    pack_byte(row_3@[3], row_3@[2], row_3@[1], row_3@[0], row_2@[5], row_2@[4], row_2@[3], row_2@[2]),
                ),
                pack_byte(false, false, mode, thumbs@[2], thumbs@[1], thumbs@[0], row_3@[5], row_3@[4]),
            ),
            forall|loc: KeyLocations|
                #[trigger] packed_pressed(r@, loc) == packed_sample(row_1@, row_2@, row_3@, thumbs@, mode, loc),
    {
        let (word, byte) = pack_readout(&row_1, &row_2, &row_3, &thumbs, mode);
        let r = KeyPressReadout { data_1: word, data_2: byte };
        assert forall|loc: KeyLocations|
            #[trigger] packed_pressed(r@, loc) == packed_sample(row_1@, row_2@, row_3@, thumbs@, mode, loc) by {
            lemma_packed_sample(row_1@, row_2@, row_3@, thumbs@, mode, loc);
        }
        r
    }

    /// Whether the key at `location` is down.
    pub fn is_pressed(&self, location: KeyLocations) -> (r: bool)
        ensures
            r == packed_pressed(self@, location),
    {
        let (in_word, mask) = location.slot();
        if in_word {
            self.data_1 & mask != 0
        } else {
            test_bits(self.data_2, mask as u8)
        }
    }

    /// The pressed keys, the mode key aside, in declaration order.
    pub fn get_high_keys(&self) -> (r: heapless::Vec<KeyLocations, 21>)
        ensures
            location_list(r) == pressed_upto(self@, 21),
    {
        let mut pressed_keys = empty_locations();
        let mut k: usize = 0;
        while k < 21
            invariant
                k <= 21,
                location_list(pressed_keys) == pressed_upto(self@, k as nat),
                location_list(pressed_keys).len() <= k,
            decreases 21 - k,
        {
            let loc = KeyLocations::listed(k);
            if self.is_pressed(loc) {
                push_location(&mut pressed_keys, loc);
            }
            k += 1;
        }
        pressed_keys
    }
}

} // verus!

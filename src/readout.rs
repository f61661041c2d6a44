//! Readouts of the two keyboard halves and the key positions they answer for.
//!
//! A readout holds one byte per matrix row and one for the thumb cluster; each
//! key position is one bit of one of those bytes.
use vstd::prelude::*;

verus! {

/// The four bytes of one half's readout: the three matrix rows, then the thumb cluster.
pub type RowBytes = (u8, u8, u8, u8);

/// Key positions of the primary (left) half: columns one to six of three rows, and
/// the three thumb keys.
#[derive(Clone, Copy, PartialEq, Eq, Structural, Debug)]
pub enum LeftKeyLocation {
    C1R1,
    C2R1,
    C3R1,
    C4R1,
    C5R1,
    C6R1,
    C1R2,
    C2R2,
    C3R2,
    C4R2,
    C5R2,
    C6R2,
    C1R3,
    C2R3,
    C3R3,
    C4R3,
    C5R3,
    C6R3,
    LT1,
    LT2,
    LT3,
}

/// Key positions of the secondary (right) half: columns seven to twelve of three
/// rows, and the three thumb keys.
#[derive(Clone, Copy, PartialEq, Eq, Structural, Debug)]
pub enum RightKeyLocation {
    C7R1,
    C8R1,
    C9R1,
    C10R1,
    C11R1,
    C12R1,
    C7R2,
    C8R2,
    C9R2,
    C10R2,
    C11R2,
    C12R2,
    C7R3,
    C8R3,
    C9R3,
    C10R3,
    C11R3,
    C12R3,
    RT1,
    RT2,
    RT3,
}

/// A key position on either half.
#[derive(Clone, Copy, PartialEq, Eq, Structural, Debug)]
pub enum UniversalKey {
    RightKey(RightKeyLocation),
    LeftKey(LeftKeyLocation),
}

/// Byte number `row` of a readout (0 to 2 are the matrix rows, 3 the thumb cluster).
pub open spec fn row_byte(v: RowBytes, row: u8) -> u8 {
    if row == 0 {
        v.0
    } else if row == 1 {
        v.1
    } else if row == 2 {
        v.2
    } else {
        v.3
    }
}

/// Where a left-half key sits: its byte and its bit mask.
pub open spec fn left_slot(loc: LeftKeyLocation) -> (u8, u8) {
    match loc {
        LeftKeyLocation::C1R1 => (0, 0x20),
        LeftKeyLocation::C2R1 => (0, 0x10),
        LeftKeyLocation::C3R1 => (0, 0x08),
        LeftKeyLocation::C4R1 => (0, 0x04),
        LeftKeyLocation::C5R1 => (0, 0x02),
        LeftKeyLocation::C6R1 => (0, 0x01),
        LeftKeyLocation::C1R2 => (1, 0x20),
        LeftKeyLocation::C2R2 => (1, 0x10),
        LeftKeyLocation::C3R2 => (1, 0x08),
        LeftKeyLocation::C4R2 => (1, 0x04),
        LeftKeyLocation::C5R2 => (1, 0x02),
        LeftKeyLocation::C6R2 => (1, 0x01),
        LeftKeyLocation::C1R3 => (2, 0x20),
        LeftKeyLocation::C2R3 => (2, 0x10),
        LeftKeyLocation::C3R3 => (2, 0x08),
        LeftKeyLocation::C4R3 => (2, 0x04),
        LeftKeyLocation::C5R3 => (2, 0x02),
        LeftKeyLocation::C6R3 => (2, 0x01),
        LeftKeyLocation::LT1 => (3, 0x01),
        LeftKeyLocation::LT2 => (3, 0x02),
        LeftKeyLocation::LT3 => (3, 0x04),
    }
}

/// Where a right-half key sits: its byte and its bit mask.
pub open spec fn right_slot(loc: RightKeyLocation) -> (u8, u8) {
    match loc {
        RightKeyLocation::C7R1 => (0, 0x80),
        RightKeyLocation::C8R1 => (0, 0x40),
        RightKeyLocation::C9R1 => (0, 0x20),
        RightKeyLocation::C10R1 => (0, 0x10),
        RightKeyLocation::C11R1 => (0, 0x08),
        RightKeyLocation::C12R1 => (0, 0x04),
        RightKeyLocation::C7R2 => (1, 0x80),
        RightKeyLocation::C8R2 => (1, 0x40),
        RightKeyLocation::C9R2 => (1, 0x20),
        RightKeyLocation::C10R2 => (1, 0x10),
        RightKeyLocation::C11R2 => (1, 0x08),
        RightKeyLocation::C12R2 => (1, 0x04),
        RightKeyLocation::C7R3 => (2, 0x80),
        RightKeyLocation::C8R3 => (2, 0x40),
        RightKeyLocation::C9R3 => (2, 0x20),
        RightKeyLocation::C10R3 => (2, 0x10),
        RightKeyLocation::C11R3 => (2, 0x08),
        RightKeyLocation::C12R3 => (2, 0x04),
        RightKeyLocation::RT1 => (3, 0x80),
        RightKeyLocation::RT2 => (3, 0x40),
        RightKeyLocation::RT3 => (3, 0x20),
    }
}

/// Whether some bit of `mask` is set in `byte`.
#[verifier::opaque]
pub open spec fn bit_set(byte: u8, mask: u8) -> bool {
    byte & mask != 0
}

/// Whether some bit of `mask` is set in `byte`.
pub fn test_bits(byte: u8, mask: u8) -> (r: bool)
    ensures
        r == bit_set(byte, mask),
{
    reveal(bit_set);
    byte & mask != 0
}

/// Whether the left-half key `loc` is down in the readout bytes `v`.
pub open spec fn left_pressed(v: RowBytes, loc: LeftKeyLocation) -> bool {
    bit_set(row_byte(v, left_slot(loc).0), left_slot(loc).1)
}

/// Whether the right-half key `loc` is down in the readout bytes `v`.
pub open spec fn right_pressed(v: RowBytes, loc: RightKeyLocation) -> bool {
    bit_set(row_byte(v, right_slot(loc).0), right_slot(loc).1)
}

/// Whether the key `key` is down, given the readouts of both halves.
pub open spec fn key_pressed(key: UniversalKey, left: RowBytes, right: RowBytes) -> bool {
    match key {
        UniversalKey::RightKey(loc) => right_pressed(right, loc),
        UniversalKey::LeftKey(loc) => left_pressed(left, loc),
    }
}

/// `mask` when `b` holds, else zero.
pub open spec fn flag(b: bool, mask: u8) -> u8 {
    if b {
        mask
    } else {
        0
    }
}

/// The byte whose bit `i` is set exactly when the `i`-th argument holds (least
/// significant bit first).
#[verifier::opaque]
pub open spec fn pack_byte(
    b0: bool,
    b1: bool,
    b2: bool,
    b3: bool,
    b4: bool,
    b5: bool,
    b6: bool,
    b7: bool,
) -> u8 {
    flag(b0, 0x01) | flag(b1, 0x02) | flag(b2, 0x04) | flag(b3, 0x08) | flag(b4, 0x10) | flag(
        b5,
        0x20,
    ) | flag(b6, 0x40) | flag(b7, 0x80)
}

/// Packs eight samples into a byte, the first one in the least significant bit.
pub fn pack_samples(
    b0: bool,
    b1: bool,
    b2: bool,
    b3: bool,
    b4: bool,
    b5: bool,
    b6: bool,
    b7: bool,
) -> (r: u8)
    ensures
        r == pack_byte(b0, b1, b2, b3, b4, b5, b6, b7),
{
    reveal(pack_byte);
    let f0: u8 = if b0 { 0x01 } else { 0 };
    let f1: u8 = if b1 { 0x02 } else { 0 };
    let f2: u8 = if b2 { 0x04 } else { 0 };
    let f3: u8 = if b3 { 0x08 } else { 0 };
    let f4: u8 = if b4 { 0x10 } else { 0 };
    let f5: u8 = if b5 { 0x20 } else { 0 };
    let f6: u8 = if b6 { 0x40 } else { 0 };
    let f7: u8 = if b7 { 0x80 } else { 0 };
    f0 | f1 | f2 | f3 | f4 | f5 | f6 | f7
}

impl LeftKeyLocation {
    /// The byte and bit mask of this key.
    pub fn slot(&self) -> (r: (u8, u8))
        ensures
            r == left_slot(*self),
    {
        match self {
            LeftKeyLocation::C1R1 => (0, 0x20),
            LeftKeyLocation::C2R1 => (0, 0x10),
            LeftKeyLocation::C3R1 => (0, 0x08),
            LeftKeyLocation::C4R1 => (0, 0x04),
            LeftKeyLocation::C5R1 => (0, 0x02),
            LeftKeyLocation::C6R1 => (0, 0x01),
            LeftKeyLocation::C1R2 => (1, 0x20),
            LeftKeyLocation::C2R2 => (1, 0x10),
            LeftKeyLocation::C3R2 => (1, 0x08),
            LeftKeyLocation::C4R2 => (1, 0x04),
            LeftKeyLocation::C5R2 => (1, 0x02),
            LeftKeyLocation::C6R2 => (1, 0x01),
            LeftKeyLocation::C1R3 => (2, 0x20),
            LeftKeyLocation::C2R3 => (2, 0x10),
            LeftKeyLocation::C3R3 => (2, 0x08),
            LeftKeyLocation::C4R3 => (2, 0x04),
            LeftKeyLocation::C5R3 => (2, 0x02),
            LeftKeyLocation::C6R3 => (2, 0x01),
            LeftKeyLocation::LT1 => (3, 0x01),
            LeftKeyLocation::LT2 => (3, 0x02),
            LeftKeyLocation::LT3 => (3, 0x04),
        }
    }
}

impl RightKeyLocation {
    /// The byte and bit mask of this key.
    pub fn slot(&self) -> (r: (u8, u8))
        ensures
            r == right_slot(*self),
    {
        match self {
            RightKeyLocation::C7R1 => (0, 0x80),
            RightKeyLocation::C8R1 => (0, 0x40),
            RightKeyLocation::C9R1 => (0, 0x20),
            RightKeyLocation::C10R1 => (0, 0x10),
            RightKeyLocation::C11R1 => (0, 0x08),
            RightKeyLocation::C12R1 => (0, 0x04),
            RightKeyLocation::C7R2 => (1, 0x80),
            RightKeyLocation::C8R2 => (1, 0x40),
            RightKeyLocation::C9R2 => (1, 0x20),
            RightKeyLocation::C10R2 => (1, 0x10),
            RightKeyLocation::C11R2 => (1, 0x08),
            RightKeyLocation::C12R2 => (1, 0x04),
            RightKeyLocation::C7R3 => (2, 0x80),
            RightKeyLocation::C8R3 => (2, 0x40),
            RightKeyLocation::C9R3 => (2, 0x20),
            RightKeyLocation::C10R3 => (2, 0x10),
            RightKeyLocation::C11R3 => (2, 0x08),
            RightKeyLocation::C12R3 => (2, 0x04),
            RightKeyLocation::RT1 => (3, 0x80),
            RightKeyLocation::RT2 => (3, 0x40),
            RightKeyLocation::RT3 => (3, 0x20),
        }
    }
}

/// Selects byte `row` of four readout bytes.
fn select_row(row_1: u8, row_2: u8, row_3: u8, cluster: u8, row: u8) -> (r: u8)
    ensures
        r == row_byte((row_1, row_2, row_3, cluster), row),
{
    if row == 0 {
        row_1
    } else if row == 1 {
        row_2
    } else if row == 2 {
        row_3
    } else {
        cluster
    }
}

/// The sample that key `loc` was scanned as: its column in its row's samples, or its
/// place among the thumb samples.
pub open spec fn left_sample(
    row_1: Seq<bool>,
    row_2: Seq<bool>,
    row_3: Seq<bool>,
    cluster: Seq<bool>,
    loc: LeftKeyLocation,
) -> bool {
    match loc {
        LeftKeyLocation::C1R1 => row_1[0],
        LeftKeyLocation::C2R1 => row_1[1],
        LeftKeyLocation::C3R1 => row_1[2],
        LeftKeyLocation::C4R1 => row_1[3],
        LeftKeyLocation::C5R1 => row_1[4],
        LeftKeyLocation::C6R1 => row_1[5],
        LeftKeyLocation::C1R2 => row_2[0],
        LeftKeyLocation::C2R2 => row_2[1],
        LeftKeyLocation::C3R2 => row_2[2],
        LeftKeyLocation::C4R2 => row_2[3],
        LeftKeyLocation::C5R2 => row_2[4],
        LeftKeyLocation::C6R2 => row_2[5],
        LeftKeyLocation::C1R3 => row_3[0],
        LeftKeyLocation::C2R3 => row_3[1],
        LeftKeyLocation::C3R3 => row_3[2],
        LeftKeyLocation::C4R3 => row_3[3],
        LeftKeyLocation::C5R3 => row_3[4],
        LeftKeyLocation::C6R3 => row_3[5],
        LeftKeyLocation::LT1 => cluster[0],
        LeftKeyLocation::LT2 => cluster[1],
        LeftKeyLocation::LT3 => cluster[2],
    }
}

/// Each bit of a packed byte is the sample it was packed from.
pub(crate) proof fn lemma_pack_byte(
    b0: bool,
    b1: bool,
    b2: bool,
    b3: bool,
    b4: bool,
    b5: bool,
    b6: bool,
    b7: bool,
)
    ensures
        bit_set(pack_byte(b0, b1, b2, b3, b4, b5, b6, b7), 0x01) == b0,
        bit_set(pack_byte(b0, b1, b2, b3, b4, b5, b6, b7), 0x02) == b1,
        bit_set(pack_byte(b0, b1, b2, b3, b4, b5, b6, b7), 0x04) == b2,
        bit_set(pack_byte(b0, b1, b2, b3, b4, b5, b6, b7), 0x08) == b3,
        bit_set(pack_byte(b0, b1, b2, b3, b4, b5, b6, b7), 0x10) == b4,
        bit_set(pack_byte(b0, b1, b2, b3, b4, b5, b6, b7), 0x20) == b5,
        bit_set(pack_byte(b0, b1, b2, b3, b4, b5, b6, b7), 0x40) == b6,
        bit_set(pack_byte(b0, b1, b2, b3, b4, b5, b6, b7), 0x80) == b7,
{
    reveal(pack_byte);
    reveal(bit_set);
    let f0 = flag(b0, 0x01);
    let f1 = flag(b1, 0x02);
    let f2 = flag(b2, 0x04);
    let f3 = flag(b3, 0x08);
    let f4 = flag(b4, 0x10);
    let f5 = flag(b5, 0x20);
    let f6 = flag(b6, 0x40);
    let f7 = flag(b7, 0x80);
    assert({
        &&& (f0 | f1 | f2 | f3 | f4 | f5 | f6 | f7) & 0x01 == f0
        &&& (f0 | f1 | f2 | f3 | f4 | f5 | f6 | f7) & 0x02 == f1
        &&& (f0 | f1 | f2 | f3 | f4 | f5 | f6 | f7) & 0x04 == f2
        &&& (f0 | f1 | f2 | f3 | f4 | f5 | f6 | f7) & 0x08 == f3
        &&& (f0 | f1 | f2 | f3 | f4 | f5 | f6 | f7) & 0x10 == f4
        &&& (f0 | f1 | f2 | f3 | f4 | f5 | f6 | f7) & 0x20 == f5
        &&& (f0 | f1 | f2 | f3 | f4 | f5 | f6 | f7) & 0x40 == f6
        &&& (f0 | f1 | f2 | f3 | f4 | f5 | f6 | f7) & 0x80 == f7
    }) by (bit_vector)
        requires
            f0 == 0 || f0 == 0x01,
            f1 == 0 || f1 == 0x02,
            f2 == 0 || f2 == 0x04,
            f3 == 0 || f3 == 0x08,
            f4 == 0 || f4 == 0x10,
            f5 == 0 || f5 == 0x20,
            f6 == 0 || f6 == 0x40,
            f7 == 0 || f7 == 0x80,
    ;
}

/// A left readout packed from samples reports key `loc` as its sample.
proof fn lemma_left_sample(
    row_1: Seq<bool>,
    row_2: Seq<bool>,
    row_3: Seq<bool>,
    cluster: Seq<bool>,
    loc: LeftKeyLocation,
)
    ensures
        left_pressed(
            (
                pack_byte(row_1[5], row_1[4], row_1[3], row_1[2], row_1[1], row_1[0], false, false),
                pack_byte(row_2[5], row_2[4], row_2[3], row_2[2], row_2[1], row_2[0], false, false),
                pack_byte(row_3[5], row_3[4], row_3[3], row_3[2], row_3[1], row_3[0], false, false),
                pack_byte(cluster[0], cluster[1], cluster[2], false, false, false, false, false),
            ),
            loc,
        ) == left_sample(row_1, row_2, row_3, cluster, loc),
{
    let row = left_slot(loc).0;
    if row == 0 {
        lemma_pack_byte(row_1[5], row_1[4], row_1[3], row_1[2], row_1[1], row_1[0], false, false);
    } else if row == 1 {
        lemma_pack_byte(row_2[5], row_2[4], row_2[3], row_2[2], row_2[1], row_2[0], false, false);
    } else if row == 2 {
        lemma_pack_byte(row_3[5], row_3[4], row_3[3], row_3[2], row_3[1], row_3[0], false, false);
    } else {
        lemma_pack_byte(cluster[0], cluster[1], cluster[2], false, false, false, false, false);
    }
}

/// The sample that key `loc` was scanned as: its column in its row's samples
/// (column seven first), or its place among the thumb samples.
pub open spec fn right_sample(
    row_1: Seq<bool>,
    row_2: Seq<bool>,
    row_3: Seq<bool>,
    cluster: Seq<bool>,
    loc: RightKeyLocation,
) -> bool {
    match loc {
        RightKeyLocation::C7R1 => row_1[0],
        RightKeyLocation::C8R1 => row_1[1],
        RightKeyLocation::C9R1 => row_1[2],
        RightKeyLocation::C10R1 => row_1[3],
        RightKeyLocation::C11R1 => row_1[4],
        RightKeyLocation::C12R1 => row_1[5],
        RightKeyLocation::C7R2 => row_2[0],
        RightKeyLocation::C8R2 => row_2[1],
        RightKeyLocation::C9R2 => row_2[2],
        RightKeyLocation::C10R2 => row_2[3],
        RightKeyLocation::C11R2 => row_2[4],
        RightKeyLocation::C12R2 => row_2[5],
        RightKeyLocation::C7R3 => row_3[0],
        RightKeyLocation::C8R3 => row_3[1],
        RightKeyLocation::C9R3 => row_3[2],
        RightKeyLocation::C10R3 => row_3[3],
        RightKeyLocation::C11R3 => row_3[4],
        RightKeyLocation::C12R3 => row_3[5],
        RightKeyLocation::RT1 => cluster[0],
        RightKeyLocation::RT2 => cluster[1],
        RightKeyLocation::RT3 => cluster[2],
    }
}

/// A right readout packed from samples reports key `loc` as its sample.
pub(crate) proof fn lemma_right_sample(
    row_1: Seq<bool>,
    row_2: Seq<bool>,
    row_3: Seq<bool>,
    cluster: Seq<bool>,
    loc: RightKeyLocation,
)
    ensures
        right_pressed(
            (
                pack_byte(false, false, row_1[5], row_1[4], row_1[3], row_1[2], row_1[1], row_1[0]),
                pack_byte(false, false, row_2[5], row_2[4], row_2[3], row_2[2], row_2[1], row_2[0]),
                pack_byte(false, false, row_3[5], row_3[4], row_3[3], row_3[2], row_3[1], row_3[0]),
                pack_byte(false, false, false, false, false, cluster[2], cluster[1], cluster[0]),
            ),
            loc,
        ) == right_sample(row_1, row_2, row_3, cluster, loc),
{
    let row = right_slot(loc).0;
    if row == 0 {
        lemma_pack_byte(false, false, row_1[5], row_1[4], row_1[3], row_1[2], row_1[1], row_1[0]);
    } else if row == 1 {
        lemma_pack_byte(false, false, row_2[5], row_2[4], row_2[3], row_2[2], row_2[1], row_2[0]);
    } else if row == 2 {
        lemma_pack_byte(false, false, row_3[5], row_3[4], row_3[3], row_3[2], row_3[1], row_3[0]);
    } else {
        lemma_pack_byte(false, false, false, false, false, cluster[2], cluster[1], cluster[0]);
    }
}

/// Packs a left-half row: columns one to six into bits 5 to 0.
fn pack_row(c: &[bool; 6]) -> (r: u8)
    ensures
        r == pack_byte(c@[5], c@[4], c@[3], c@[2], c@[1], c@[0], false, false),
{
    let c0 = c[0];
    let c1 = c[1];
    let c2 = c[2];
    let c3 = c[3];
    let c4 = c[4];
    let c5 = c[5];
    pack_samples(c5, c4, c3, c2, c1, c0, false, false)
}

/// One scan of the primary (left) half. Row bytes carry columns one to six in bits
/// 5 to 0; the thumb cluster carries its keys one to three in bits 0 to 2.
#[derive(Clone, Copy, PartialEq, Eq, Structural, Debug)]
pub struct LeftReadout {
    row_1: u8,
    row_2: u8,
    row_3: u8,
    ltc: u8,
}

impl View for LeftReadout {
    type V = RowBytes;

    closed spec fn view(&self) -> RowBytes {
        (self.row_1, self.row_2, self.row_3, self.ltc)
    }
}

impl Default for LeftReadout {
    fn default() -> (r: Self)
        ensures
            r@ == (0u8, 0u8, 0u8, 0u8),
    {
        LeftReadout { row_1: 0, row_2: 0, row_3: 0, ltc: 0 }
    }
}

impl LeftReadout {
    /// A readout made of the given row and thumb-cluster bytes.
    pub fn new(row_1: u8, row_2: u8, row_3: u8, left_thumb_cluster: u8) -> (r: Self)
        ensures
            r@ == (row_1, row_2, row_3, left_thumb_cluster),
    {
        LeftReadout { row_1, row_2, row_3, ltc: left_thumb_cluster }
    }

    /// The readout of one scan from its samples (`true` is a closed switch): the
    /// six column samples of each row, then the three thumb keys.
    pub fn from_samples(row_1: [bool; 6], row_2: [bool; 6], row_3: [bool; 6], cluster: [bool; 3]) -> (r: Self)
        ensures
            r@ == (
                pack_byte(row_1@[5], row_1@[4], row_1@[3], row_1@[2], row_1@[1], row_1@[0], false, false),
                pack_byte(row_2@[5], row_2@[4], row_2@[3], row_2@[2], row_2@[1], row_2@[0], false, false),
                pack_byte(row_3@[5], row_3@[4], row_3@[3], row_3@[2], row_3@[1], row_3@[0], false, false),
                pack_byte(cluster@[0], cluster@[1], cluster@[2], false, false, false, false, false),
            ),
            forall|loc: LeftKeyLocation|
                #[trigger] left_pressed(r@, loc) == left_sample(row_1@, row_2@, row_3@, cluster@, loc),
    {
        let r1 = pack_row(&row_1);
        let r2 = pack_row(&row_2);
        let r3 = pack_row(&row_3);
        let t = pack_samples(cluster[0], cluster[1], cluster[2], false, false, false, false, false);
        let r = LeftReadout { row_1: r1, row_2: r2, row_3: r3, ltc: t };
        assert forall|loc: LeftKeyLocation|
            #[trigger] left_pressed(r@, loc) == left_sample(row_1@, row_2@, row_3@, cluster@, loc) by {
            lemma_left_sample(row_1@, row_2@, row_3@, cluster@, loc);
        }
        r
    }

    /// Whether the key at `location` is down in this readout.
    pub fn is_pressed(&self, location: &LeftKeyLocation) -> (r: bool)
        ensures
            r == left_pressed(self@, *location),
    {
        let (row, mask) = location.slot();
        test_bits(select_row(self.row_1, self.row_2, self.row_3, self.ltc, row), mask)
    }
}

/// The secondary (right) half's readout as the primary half holds it. Row bytes
/// carry columns seven to twelve in bits 7 to 2; the thumb cluster carries its keys
/// one to three in bits 7 to 5.
#[derive(Clone, Copy, PartialEq, Eq, Structural, Debug)]
pub struct RightReadout {
    row_1: u8,
    row_2: u8,
    row_3: u8,
    rtc: u8,
}

impl View for RightReadout {
    type V = RowBytes;

    closed spec fn view(&self) -> RowBytes {
        (self.row_1, self.row_2, self.row_3, self.rtc)
    }
}

impl Default for RightReadout {
    fn default() -> (r: Self)
        ensures
            r@ == (0u8, 0u8, 0u8, 0u8),
    {
        RightReadout { row_1: 0, row_2: 0, row_3: 0, rtc: 0 }
    }
}

impl RightReadout {
    /// A readout made of the given row and thumb-cluster bytes.
    pub fn new(row_1: u8, row_2: u8, row_3: u8, right_thumb_cluster: u8) -> (r: Self)
        ensures
            r@ == (row_1, row_2, row_3, right_thumb_cluster),
    {
        RightReadout { row_1, row_2, row_3, rtc: right_thumb_cluster }
    }

    /// Whether the key at `location` is down in this readout.
    pub fn is_pressed(&self, location: &RightKeyLocation) -> (r: bool)
        ensures
            r == right_pressed(self@, *location),
    {
        let (row, mask) = location.slot();
        test_bits(select_row(self.row_1, self.row_2, self.row_3, self.rtc, row), mask)
    }
}

impl UniversalKey {
    /// Whether this key is down, given the readouts of both halves.
    pub fn is_pressed(&self, left: &LeftReadout, right: &RightReadout) -> (r: bool)
        ensures
            r == key_pressed(*self, left@, right@),
    {
        match self {
            UniversalKey::RightKey(loc) => right.is_pressed(loc),
            UniversalKey::LeftKey(loc) => left.is_pressed(loc),
        }
    }
}

/// Where a left-half key sits in a [`LeftKeyLocationHelper`]: its byte and its bit
/// mask, column one in bit 0.
pub open spec fn helper_slot(loc: LeftKeyLocation) -> (u8, u8) {
    match loc {
        LeftKeyLocation::C1R1 => (0, 0x01),
        LeftKeyLocation::C2R1 => (0, 0x02),
        LeftKeyLocation::C3R1 => (0, 0x04),
        LeftKeyLocation::C4R1 => (0, 0x08),
        LeftKeyLocation::C5R1 => (0, 0x10),
        LeftKeyLocation::C6R1 => (0, 0x20),
        LeftKeyLocation::C1R2 => (1, 0x01),
        LeftKeyLocation::C2R2 => (1, 0x02),
        LeftKeyLocation::C3R2 => (1, 0x04),
        LeftKeyLocation::C4R2 => (1, 0x08),
        LeftKeyLocation::C5R2 => (1, 0x10),
        LeftKeyLocation::C6R2 => (1, 0x20),
        LeftKeyLocation::C1R3 => (2, 0x01),
        LeftKeyLocation::C2R3 => (2, 0x02),
        LeftKeyLocation::C3R3 => (2, 0x04),
        LeftKeyLocation::C4R3 => (2, 0x08),
        LeftKeyLocation::C5R3 => (2, 0x10),
        LeftKeyLocation::C6R3 => (2, 0x20),
        LeftKeyLocation::LT1 => (3, 0x01),
        LeftKeyLocation::LT2 => (3, 0x02),
        LeftKeyLocation::LT3 => (3, 0x04),
    }
}

/// A left-half readout in the layout that carries column one in bit 0 of each row
/// byte and thumb keys one to three in bits 0 to 2 of the cluster byte.
pub struct LeftKeyLocationHelper {
    pub row_1: u8,
    pub row_2: u8,
    pub row_3: u8,
    pub thumb_cluster: u8,
}

impl LeftKeyLocationHelper {
    /// Whether the key at `location` is down.
    pub fn is_pressed(&self, location: &LeftKeyLocation) -> (r: bool)
        ensures
            r == bit_set(
                row_byte((self.row_1, self.row_2, self.row_3, self.thumb_cluster), helper_slot(*location).0),
                helper_slot(*location).1,
            ),
    {
        let (row, mask) = match location {
            LeftKeyLocation::C1R1 => (0, 0x01),
            LeftKeyLocation::C2R1 => (0, 0x02),
            LeftKeyLocation::C3R1 => (0, 0x04),
            LeftKeyLocation::C4R1 => (0, 0x08),
            LeftKeyLocation::C5R1 => (0, 0x10),
            LeftKeyLocation::C6R1 => (0, 0x20),
            LeftKeyLocation::C1R2 => (1, 0x01),
            LeftKeyLocation::C2R2 => (1, 0x02),
            LeftKeyLocation::C3R2 => (1, 0x04),
            LeftKeyLocation::C4R2 => (1, 0x08),
            LeftKeyLocation::C5R2 => (1, 0x10),
            LeftKeyLocation::C6R2 => (1, 0x20),
            LeftKeyLocation::C1R3 => (2, 0x01),
            LeftKeyLocation::C2R3 => (2, 0x02),
            LeftKeyLocation::C3R3 => (2, 0x04),
            LeftKeyLocation::C4R3 => (2, 0x08),
            LeftKeyLocation::C5R3 => (2, 0x10),
            LeftKeyLocation::C6R3 => (2, 0x20),
            LeftKeyLocation::LT1 => (3, 0x01),
            LeftKeyLocation::LT2 => (3, 0x02),
            LeftKeyLocation::LT3 => (3, 0x04),
        };
        test_bits(select_row(self.row_1, self.row_2, self.row_3, self.thumb_cluster, row), mask)
    }
}

} // verus!

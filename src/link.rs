//! The link between the halves: the secondary half's own readout, the four-byte
//! frame that carries it to the primary half, and the rule that sends a frame only
//! when the readout changed.
use crate::readout::{
    lemma_right_sample, pack_byte, pack_samples, right_pressed, right_sample, RightKeyLocation,
    RightReadout, RowBytes,
};
use vstd::prelude::*;

verus! {

/// The frame that carries readout bytes `v`: the three rows, then the thumb cluster.
pub open spec fn frame_of(v: RowBytes) -> Seq<u8> {
    seq![v.0, v.1, v.2, v.3]
}

/// The readout bytes that a four-byte frame carries.
pub open spec fn readout_of_frame(f: Seq<u8>) -> RowBytes {
    (f[0], f[1], f[2], f[3])
}

/// One scan of the secondary (right) half, as that half takes it. Row bytes carry
/// columns seven to twelve in bits 7 to 2; the thumb cluster carries its keys one to
/// three in bits 7 to 5.
#[derive(Clone, Copy, PartialEq, Eq, Structural, Debug)]
pub struct RightKeyReadout {
    row_1: u8,
    row_2: u8,
    row_3: u8,
    thumb_cluster: u8,
}

impl View for RightKeyReadout {
    type V = RowBytes;

    closed spec fn view(&self) -> RowBytes {
        (self.row_1, self.row_2, self.row_3, self.thumb_cluster)
    }
}

impl Default for RightKeyReadout {
    fn default() -> (r: Self)
        ensures
            r@ == (0u8, 0u8, 0u8, 0u8),
    {
        RightKeyReadout { row_1: 0, row_2: 0, row_3: 0, thumb_cluster: 0 }
    }
}

/// Packs a right-half row: columns seven to twelve into bits 7 to 2.
fn pack_row(c: &[bool; 6]) -> (r: u8)
    ensures
        r == pack_byte(false, false, c@[5], c@[4], c@[3], c@[2], c@[1], c@[0]),
{
    let c0 = c[0];
    let c1 = c[1];
    let c2 = c[2];
    let c3 = c[3];
    let c4 = c[4];
    let c5 = c[5];
    pack_samples(false, false, c5, c4, c3, c2, c1, c0)
}

impl RightKeyReadout {
    /// A readout made of the given row and thumb-cluster bytes.
    pub fn new(row_1: u8, row_2: u8, row_3: u8, thumb_cluster: u8) -> (r: Self)
        ensures
            r@ == (row_1, row_2, row_3, thumb_cluster),
    {
        RightKeyReadout { row_1, row_2, row_3, thumb_cluster }
    }

    /// The readout of one scan from its samples (`true` is a closed switch): the
    /// six column samples of each row, then the three thumb keys.
    pub fn from_samples(row_1: [bool; 6], row_2: [bool; 6], row_3: [bool; 6], cluster: [bool; 3]) -> (r: Self)
        ensures
            r@ == (
                pack_byte(false, false, row_1@[5], row_1@[4], row_1@[3], row_1@[2], row_1@[1], row_1@[0]),
                pack_byte(false, false, row_2@[5], row_2@[4], row_2@[3], row_2@[2], row_2@[1], row_2@[0]),
                pack_byte(false, false, row_3@[5], row_3@[4], row_3@[3], row_3@[2], row_3@[1], row_3@[0]),
                pack_byte(false, false, false, false, false, cluster@[2], cluster@[1], cluster@[0]),
            ),
            forall|loc: RightKeyLocation|
                #[trigger] right_pressed(r@, loc) == right_sample(row_1@, row_2@, row_3@, cluster@, loc),
    {
        let r1 = pack_row(&row_1);
        let r2 = pack_row(&row_2);
        let r3 = pack_row(&row_3);
        let c0 = cluster[0];
        let c1 = cluster[1];
        let c2 = cluster[2];
        let t = pack_samples(false, false, false, false, false, c2, c1, c0);
        let r = RightKeyReadout { row_1: r1, row_2: r2, row_3: r3, thumb_cluster: t };
        assert forall|loc: RightKeyLocation|
            #[trigger] right_pressed(r@, loc) == right_sample(row_1@, row_2@, row_3@, cluster@, loc) by {
            lemma_right_sample(row_1@, row_2@, row_3@, cluster@, loc);
        }
        r
    }

    /// The frame for this readout, bytes in `[row_1, row_2, row_3, thumb_cluster]`
    /// order.
    pub fn as_ne_bytes(&self) -> (r: [u8; 4])
        ensures
            r@ == frame_of(self@),
    {
        let r = [self.row_1, self.row_2, self.row_3, self.thumb_cluster];
        assert(r@ =~= frame_of(self@));
        r
    }
}

impl RightReadout {
    /// The readout that a frame from the secondary half carries.
    pub fn from_frame(frame: [u8; 4]) -> (r: RightReadout)
        ensures
            r@ == readout_of_frame(frame@),
    {
        RightReadout::new(frame[0], frame[1], frame[2], frame[3])
    }
}

/// Decoding a frame gives back the readout that was encoded into it.
pub proof fn lemma_frame_round_trip(r: RightKeyReadout)
    ensures
        readout_of_frame(frame_of(r@)) == r@,
{
}

/// One step of the secondary half's sender: the state becomes the new readout, and a
/// frame goes out only when the readout differs from the previous one.
pub open spec fn link_step(previous: RowBytes, readout: RowBytes) -> (RowBytes, Option<Seq<u8>>) {
    (readout, if readout == previous { None } else { Some(frame_of(readout)) })
}

/// The secondary half's sender, which remembers the last readout it saw.
pub struct SecondaryLink {
    previous: RightKeyReadout,
}

impl View for SecondaryLink {
    type V = RowBytes;

    /// The last readout seen.
    closed spec fn view(&self) -> RowBytes {
        self.previous@
    }
}

impl SecondaryLink {
    /// A sender that has seen only the all-released readout.
    pub fn new() -> (r: SecondaryLink)
        ensures
            r@ == (0u8, 0u8, 0u8, 0u8),
    {
        SecondaryLink { previous: RightKeyReadout::default() }
    }

    /// Takes a fresh scan; returns the frame to send when it differs from the last
    /// one, `None` when it repeats it.
    pub fn on_scan(&mut self, readout: RightKeyReadout) -> (r: Option<[u8; 4]>)
        ensures
            final(self)@ == link_step(old(self)@, readout@).0,
            r.is_some() == link_step(old(self)@, readout@).1.is_some(),
            r.is_some() ==> r.unwrap()@ == link_step(old(self)@, readout@).1.unwrap(),
    {
        if readout == self.previous {
            return None;
        }
        self.previous = readout;
        Some(readout.as_ne_bytes())
    }
}

/// Two consecutive identical readouts give at most one frame: the second never
/// sends.
pub proof fn lemma_change_suppression(previous: RowBytes, readout: RowBytes)
    ensures
        link_step(link_step(previous, readout).0, readout).1.is_none(),
{
}

} // verus!

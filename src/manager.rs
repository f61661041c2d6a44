//! The primary half's combined state: the latest readout of each half and the
//! report queue, resolved anew whenever either readout changes.
use crate::buffer::KeyboardRingBuffer;
use crate::profile::{resolve, KeyboardProfile};
use crate::readout::{LeftReadout, RightReadout};
use crate::report::{KeyboardReportHelper, ReportView};
use vstd::prelude::*;

verus! {

/// What the manager holds: both readouts and the queued reports, oldest first.
pub struct ManagerView {
    pub left: LeftReadout,
    pub right: RightReadout,
    pub queue: Seq<ReportView>,
}

/// The readouts of both halves and the queue that their resolutions feed.
pub struct FullKeyboardManager {
    right_readout: RightReadout,
    left_readout: LeftReadout,
    buffer: KeyboardRingBuffer,
}

impl View for FullKeyboardManager {
    type V = ManagerView;

    closed spec fn view(&self) -> ManagerView {
        ManagerView { left: self.left_readout, right: self.right_readout, queue: self.buffer@ }
    }
}

impl FullKeyboardManager {
    /// A manager over `buffer`, with both halves all released.
    pub fn new(buffer: KeyboardRingBuffer) -> (r: Self)
        ensures
            r@.left@ == (0u8, 0u8, 0u8, 0u8),
            r@.right@ == (0u8, 0u8, 0u8, 0u8),
            r@.queue == buffer@,
    {
        FullKeyboardManager {
            buffer,
            left_readout: LeftReadout::default(),
            right_readout: RightReadout::default(),
        }
    }

    /// Takes a new readout of the secondary half and resolves it with the latest
    /// primary readout.
    pub fn update_right_readout(&mut self, readout: RightReadout, profile: &KeyboardProfile)
        ensures
            final(self)@.right == readout,
            final(self)@.left == old(self)@.left,
            final(self)@.queue == resolve(*profile, old(self)@.left@, readout@, old(self)@.queue),
    {
        self.right_readout = readout;
        self.process_readouts(profile);
    }

    /// Takes a new readout of the primary half and resolves it with the latest
    /// secondary readout.
    pub fn update_left_readout(&mut self, readout: LeftReadout, profile: &KeyboardProfile)
        ensures
            final(self)@.left == readout,
            final(self)@.right == old(self)@.right,
            final(self)@.queue == resolve(*profile, readout@, old(self)@.right@, old(self)@.queue),
    {
        self.left_readout = readout;
        self.process_readouts(profile);
    }

    /// Takes a fresh scan of the primary half: resolves it when it differs from the
    /// latest one and returns `true`; returns `false` and changes nothing when it
    /// repeats it.
    pub fn on_left_scan(&mut self, readout: LeftReadout, profile: &KeyboardProfile) -> (r: bool)
        ensures
            r == (readout != old(self)@.left),
            r ==> final(self)@.left == readout && final(self)@.right == old(self)@.right
                && final(self)@.queue == resolve(*profile, readout@, old(self)@.right@, old(self)@.queue),
            !r ==> final(self)@ == old(self)@,
    {
        if readout == self.left_readout {
            return false;
        }
        self.update_left_readout(readout, profile);
        true
    }

    /// Takes the oldest queued report out; `None` when none is queued.
    pub fn get_report_helper(&mut self) -> (r: Option<KeyboardReportHelper>)
        ensures
            final(self)@.left == old(self)@.left,
            final(self)@.right == old(self)@.right,
            old(self)@.queue.len() == 0 ==> r.is_none() && final(self)@.queue == old(self)@.queue,
            old(self)@.queue.len() > 0 ==> r.is_some() && r.unwrap()@ == old(self)@.queue[0]
                && final(self)@.queue == old(self)@.queue.drop_first(),
    {
        self.buffer.get_report_helper()
    }

    /// Resolves the current readouts into the queue.
    fn process_readouts(&mut self, profile: &KeyboardProfile)
        ensures
            final(self)@.left == old(self)@.left,
            final(self)@.right == old(self)@.right,
            final(self)@.queue == resolve(*profile, old(self)@.left@, old(self)@.right@, old(self)@.queue),
    {
        profile.process_readout(&self.left_readout, &self.right_readout, &mut self.buffer);
    }
}

} // verus!

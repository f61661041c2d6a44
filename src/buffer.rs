//! The bounded report queue between report production and USB transmission.
use crate::report::{KeyboardReportHelper, ReportView};
use vstd::prelude::*;

verus! {

/// Slots of the report queue.
pub const BUFFER_SIZE: usize = 100;

/// The queue after offering it `r`: appended when a slot is free, dropped when the
/// queue is full.
pub open spec fn enqueue(q: Seq<ReportView>, r: ReportView) -> Seq<ReportView> {
    if q.len() < BUFFER_SIZE {
        q.push(r)
    } else {
        q
    }
}

/// The queue after offering it the reports of `rs`, in order.
pub open spec fn enqueue_all(q: Seq<ReportView>, rs: Seq<ReportView>) -> Seq<ReportView>
    decreases rs.len(),
{
    if rs.len() == 0 {
        q
    } else {
        enqueue(enqueue_all(q, rs.drop_last()), rs.last())
    }
}

/// Offering reports never grows the queue by more than their number, nor past its
/// slot count.
pub proof fn lemma_enqueue_all_len(q: Seq<ReportView>, rs: Seq<ReportView>)
    ensures
        enqueue_all(q, rs).len() <= q.len() + rs.len(),
        q.len() <= BUFFER_SIZE ==> enqueue_all(q, rs).len() <= BUFFER_SIZE,
    decreases rs.len(),
{
    if rs.len() > 0 {
        lemma_enqueue_all_len(q, rs.drop_last());
    }
}

/// While there is room for all of them, offered reports are appended in order.
pub proof fn lemma_enqueue_all_room(q: Seq<ReportView>, rs: Seq<ReportView>)
    requires
        q.len() + rs.len() <= BUFFER_SIZE,
    ensures
        enqueue_all(q, rs) == q + rs,
    decreases rs.len(),
{
    if rs.len() > 0 {
        lemma_enqueue_all_room(q, rs.drop_last());
        assert(q + rs =~= (q + rs.drop_last()).push(rs.last()));
    }
}

/// The queue is first in, first out, and drops the newest reports when full: after
/// offering `rs` to an empty queue, it holds the first `rs` in order, as many as
/// its slots take.
pub proof fn lemma_queue_fifo(rs: Seq<ReportView>)
    ensures
        enqueue_all(Seq::empty(), rs) == rs.take(
            if rs.len() < BUFFER_SIZE {
                rs.len() as int
            } else {
                BUFFER_SIZE as int
            },
        ),
    decreases rs.len(),
{
    if rs.len() == 0 {
        assert(rs.take(0) =~= Seq::<ReportView>::empty());
    } else {
        let init = rs.drop_last();
        lemma_queue_fifo(init);
        if init.len() < BUFFER_SIZE {
            assert(rs.take(rs.len() as int) =~= init.take(init.len() as int).push(rs.last()));
        } else {
            assert(rs.take(BUFFER_SIZE as int) =~= init.take(BUFFER_SIZE as int));
        }
    }
}

/// A fixed-capacity circular queue of reports. Reports leave in the order they
/// came; a report offered to a full queue is dropped.
pub struct KeyboardRingBuffer {
    the_buffer: [KeyboardReportHelper; 100],
    entry_pos: usize,
    exit_pos: usize,
    count: usize,
}

impl View for KeyboardRingBuffer {
    type V = Seq<ReportView>;

    /// The queued reports, oldest first.
    closed spec fn view(&self) -> Seq<ReportView> {
        Seq::new(
            self.count as nat,
            |i: int| self.the_buffer@[(self.exit_pos + i) % (BUFFER_SIZE as int)]@,
        )
    }
}

impl KeyboardRingBuffer {
    /// The cursors stay within the slots, and the entry cursor is `count` slots past
    /// the exit cursor.
    #[verifier::type_invariant]
    spec fn cursors_agree(&self) -> bool {
        &&& self.exit_pos < BUFFER_SIZE
        &&& self.entry_pos < BUFFER_SIZE
        &&& self.count <= BUFFER_SIZE
        &&& self.entry_pos == (self.exit_pos + self.count) % (BUFFER_SIZE as int)
    }

    /// An empty queue.
    pub fn new() -> (r: KeyboardRingBuffer)
        ensures
            r@ == Seq::<ReportView>::empty(),
    {
        let r = KeyboardRingBuffer {
            the_buffer: [KeyboardReportHelper::new(); 100],
            entry_pos: 0,
            exit_pos: 0,
            count: 0,
        };
        assert(r@ =~= Seq::<ReportView>::empty());
        r
    }

    /// Takes the oldest report out of the queue; `None` when the queue is empty.
    pub fn get_report_helper(&mut self) -> (r: Option<KeyboardReportHelper>)
        ensures
            old(self)@.len() == 0 ==> r.is_none() && final(self)@ == old(self)@,
            old(self)@.len() > 0 ==> r.is_some() && r.unwrap()@ == old(self)@[0] && final(self)@
                == old(self)@.drop_first(),
    {
        proof {
            use_type_invariant(&*self);
        }
        if self.count == 0 {
            return None;
        }
        let ghost before = self@;
        let report = self.the_buffer[self.exit_pos];
        *self = KeyboardRingBuffer {
            the_buffer: self.the_buffer,
            entry_pos: self.entry_pos,
            exit_pos: (self.exit_pos + 1) % BUFFER_SIZE,
            count: self.count - 1,
        };
        proof {
            assert forall|i: int| 0 <= i < self@.len() implies self@[i] == before.drop_first()[i] by {
                let e = self.exit_pos as int;
                assert(((e + i) % 100) == ((e - 1 + 100) % 100 + 1 + i) % 100);
            }
            assert(self@ =~= before.drop_first());
        }
        Some(report)
    }

    /// The oldest report, left in the queue; `None` when the queue is empty.
    pub fn peek(&self) -> (r: Option<KeyboardReportHelper>)
        ensures
            self@.len() == 0 ==> r.is_none(),
            self@.len() > 0 ==> r.is_some() && r.unwrap()@ == self@[0],
    {
        proof {
            use_type_invariant(self);
        }
        if self.count == 0 {
            return None;
        }
        Some(self.the_buffer[self.exit_pos])
    }

    /// Appends `report` when a slot is free; drops it when the queue is full.
    pub fn put_report(&mut self, report: KeyboardReportHelper)
        ensures
            final(self)@ == enqueue(old(self)@, report@),
    {
        proof {
            use_type_invariant(&*self);
        }
        if self.count == BUFFER_SIZE {
            return;
        }
        let ghost before = self@;
        let mut slots = self.the_buffer;
        slots[self.entry_pos] = report;
        *self = KeyboardRingBuffer {
            the_buffer: slots,
            entry_pos: (self.entry_pos + 1) % BUFFER_SIZE,
            exit_pos: self.exit_pos,
            count: self.count + 1,
        };
        proof {
            assert forall|i: int| 0 <= i < before.len() implies self@[i] == before[i] by {
                let e = self.exit_pos as int;
                let c = before.len() as int;
                assert((e + i) % 100 != (e + c) % 100);
            }
            assert(self@ =~= before.push(report@));
        }
    }
}

} // verus!

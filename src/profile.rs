//! The keymap and its dispatch: which action each pressed key takes on the active
//! layer, and how the actions of one resolution turn into queued reports.
use crate::buffer::{
    enqueue, enqueue_all, lemma_enqueue_all_len, lemma_enqueue_all_room, KeyboardRingBuffer, BUFFER_SIZE,
};
use crate::layer::{layer_for, LayerLevel};
use crate::readout::{key_pressed, LeftReadout, RightReadout, RowBytes, UniversalKey};
use crate::report::{empty_report, report_is_empty, with_keycode, KeyboardReportHelper, ReportView};
use vstd::prelude::*;

verus! {

/// heapless::Vec, the fixed-capacity vector that holds a macro's reports and a list
/// of pressed keys, as an opaque type.
#[verifier::external_type_specification]
#[verifier::external_body]
#[verifier::reject_recursive_types(T)]
pub struct ExHeaplessVec<T, const N: usize>(heapless::Vec<T, N>);

/// The reports that a macro's fixed-capacity list holds, in order.
pub uninterp spec fn macro_entries(v: heapless::Vec<KeyboardReportHelper, 30>) -> Seq<
    KeyboardReportHelper,
>;

/// Relies on heapless::Vec::as_slice: the slice holds the vector's items in order.
#[verifier::external_body]
fn macro_slice(v: &heapless::Vec<KeyboardReportHelper, 30>) -> (r: &[KeyboardReportHelper])
    ensures
        r@ == macro_entries(*v),
{
    v.as_slice()
}

/// What pressing a key does on one layer.
pub enum KeyAction {
    /// Nothing; resolution goes on with the next key.
    DeadKey,
    /// Contributes the HID usage to the report being built (a modifier usage sets
    /// its bit).
    HidKey(u8),
    /// Queues the listed reports, up to the first empty one, in place of the report
    /// being built, and ends the resolution.
    HidReport(heapless::Vec<KeyboardReportHelper, 30>),
}

/// The four actions of one key, one per layer.
pub struct KeyActionSet {
    pub base_action: KeyAction,
    pub layer_one_action: KeyAction,
    pub layer_two_action: KeyAction,
    pub layer_one_and_two_action: KeyAction,
}

/// A key position and its actions.
pub struct KeyBinding {
    pub location: UniversalKey,
    pub actions: KeyActionSet,
}

/// A keymap: the two layer keys, and the bound keys in the order in which a
/// resolution visits them. That order decides which macro wins when several keys
/// are down.
pub struct KeyboardProfile {
    pub layer_key_1: UniversalKey,
    pub layer_key_2: UniversalKey,
    pub bindings: Vec<KeyBinding>,
}

/// The state of a resolution: the report being built, the queue, and whether a macro
/// has ended the resolution.
pub struct Dispatch {
    pub report: ReportView,
    pub queue: Seq<ReportView>,
    pub finished: bool,
}

/// What a macro's list holds, as report contents.
pub open spec fn macro_views(v: heapless::Vec<KeyboardReportHelper, 30>) -> Seq<ReportView> {
    macro_entries(v).map_values(|r: KeyboardReportHelper| r@)
}

/// The reports of a macro that are sent: those before the first empty one.
pub open spec fn macro_prefix(entries: Seq<ReportView>) -> Seq<ReportView>
    decreases entries.len(),
{
    if entries.len() == 0 {
        Seq::empty()
    } else if report_is_empty(entries[0]) {
        Seq::empty()
    } else {
        seq![entries[0]] + macro_prefix(entries.drop_first())
    }
}

/// The action of a key set on a layer.
pub open spec fn action_for(s: KeyActionSet, layer: LayerLevel) -> KeyAction {
    match layer {
        LayerLevel::NoLayer => s.base_action,
        LayerLevel::LayerOne => s.layer_one_action,
        LayerLevel::LayerTwo => s.layer_two_action,
        LayerLevel::LayerOneAndTwo => s.layer_one_and_two_action,
    }
}

/// A resolution's state after applying action `a`.
pub open spec fn apply_action(a: KeyAction, d: Dispatch) -> Dispatch {
    match a {
        KeyAction::DeadKey => d,
        KeyAction::HidKey(code) => Dispatch {
            report: with_keycode(d.report, code),
            queue: d.queue,
            finished: d.finished,
        },
        KeyAction::HidReport(v) => Dispatch {
            report: d.report,
            queue: enqueue_all(d.queue, macro_prefix(macro_views(v))),
            finished: true,
        },
    }
}

/// The layer that the profile's layer keys select for the readouts `left` and `right`.
pub open spec fn profile_layer(p: KeyboardProfile, left: RowBytes, right: RowBytes) -> LayerLevel {
    layer_for(key_pressed(p.layer_key_1, left, right), key_pressed(p.layer_key_2, left, right))
}

/// A resolution's state after visiting the first `n` bindings: a pressed key applies
/// its action on `layer`, until an action ends the resolution.
pub open spec fn dispatch_upto(
    bindings: Seq<KeyBinding>,
    layer: LayerLevel,
    left: RowBytes,
    right: RowBytes,
    queue: Seq<ReportView>,
    n: nat,
) -> Dispatch
    decreases n,
{
    if n == 0 {
        Dispatch { report: empty_report(), queue, finished: false }
    } else {
        let d = dispatch_upto(bindings, layer, left, right, queue, (n - 1) as nat);
        let b = bindings[n - 1];
        if d.finished || !key_pressed(b.location, left, right) {
            d
        } else {
            apply_action(action_for(b.actions, layer), d)
        }
    }
}

/// The queue after resolving the readouts `left` and `right` against profile `p`:
/// either a macro's reports, or the single report that the pressed keys built,
/// queued even when empty.
pub open spec fn resolve(
    p: KeyboardProfile,
    left: RowBytes,
    right: RowBytes,
    queue: Seq<ReportView>,
) -> Seq<ReportView> {
    let d = dispatch_upto(
        p.bindings@,
        profile_layer(p, left, right),
        left,
        right,
        queue,
        p.bindings@.len(),
    );
    if d.finished {
        d.queue
    } else {
        enqueue(d.queue, d.report)
    }
}

/// The macro's sent reports are the entries before index `i` when `i` is its first
/// empty entry or its length.
proof fn lemma_macro_prefix_upto(entries: Seq<ReportView>, i: int)
    requires
        0 <= i <= entries.len(),
        forall|j: int| 0 <= j < i ==> !report_is_empty(#[trigger] entries[j]),
        i == entries.len() || report_is_empty(entries[i]),
    ensures
        macro_prefix(entries) == entries.take(i),
    decreases i,
{
    if i == 0 {
        assert(entries.take(0) =~= Seq::<ReportView>::empty());
    } else {
        let rest = entries.drop_first();
        assert(!report_is_empty(entries[0]));
        assert forall|j: int| 0 <= j < i - 1 implies !report_is_empty(#[trigger] rest[j]) by {
            assert(rest[j] == entries[j + 1]);
        }
        if i - 1 < rest.len() {
            assert(rest[i - 1] == entries[i]);
        }
        lemma_macro_prefix_upto(rest, i - 1);
        assert(entries.take(i) =~= seq![entries[0]] + rest.take(i - 1));
    }
}

/// A macro whose entry `i` is its first empty report sends exactly its first `i`
/// reports, never more: into a queue `q` with room for them they are appended in
/// order, and in any case the queue grows by at most `i`.
pub proof fn lemma_macro_termination(entries: Seq<ReportView>, i: int, q: Seq<ReportView>)
    requires
        0 <= i < entries.len(),
        report_is_empty(entries[i]),
        forall|j: int| 0 <= j < i ==> !report_is_empty(#[trigger] entries[j]),
    ensures
        macro_prefix(entries) == entries.take(i),
        enqueue_all(q, macro_prefix(entries)).len() <= q.len() + i,
        q.len() + i <= BUFFER_SIZE ==> enqueue_all(q, macro_prefix(entries)) == q + entries.take(i),
{
    lemma_macro_prefix_upto(entries, i);
    lemma_enqueue_all_len(q, entries.take(i));
    if q.len() + i <= BUFFER_SIZE {
        lemma_enqueue_all_room(q, entries.take(i));
    }
}

/// Once a resolution has ended, visiting more bindings changes nothing.
proof fn lemma_finished_stays(
    bindings: Seq<KeyBinding>,
    layer: LayerLevel,
    left: RowBytes,
    right: RowBytes,
    queue: Seq<ReportView>,
    k: nat,
    m: nat,
)
    requires
        k <= m,
        dispatch_upto(bindings, layer, left, right, queue, k).finished,
    ensures
        dispatch_upto(bindings, layer, left, right, queue, m) == dispatch_upto(
            bindings,
            layer,
            left,
            right,
            queue,
            k,
        ),
    decreases m,
{
    if m > k {
        lemma_finished_stays(bindings, layer, left, right, queue, k, (m - 1) as nat);
    }
}

impl KeyAction {
    /// Applies this action to the report being built and the queue. Returns `true`
    /// when the action ends the resolution (a macro, whose reports up to its first
    /// empty one were queued), `false` otherwise.
    pub fn add_to_buffer(&self, buffer: &mut KeyboardRingBuffer, report: &mut KeyboardReportHelper) -> (r:
        bool)
        ensures
            (Dispatch { report: final(report)@, queue: final(buffer)@, finished: r }) == apply_action(
                *self,
                Dispatch { report: old(report)@, queue: old(buffer)@, finished: false },
            ),
    {
        match self {
            KeyAction::DeadKey => false,
            KeyAction::HidKey(key) => {
                report.add_keycode(*key);
                false
            },
            KeyAction::HidReport(reports) => {
                let entries = macro_slice(reports);
                let ghost views = macro_views(*reports);
                let mut i: usize = 0;
                while i < entries.len()
                    invariant
                        0 <= i <= entries@.len(),
                        *self == KeyAction::HidReport(*reports),
                        entries@ == macro_entries(*reports),
                        views == macro_views(*reports),
                        views.len() == entries@.len(),
                        forall|j: int| 0 <= j < i ==> !report_is_empty(#[trigger] views[j]),
                        buffer@ == enqueue_all(old(buffer)@, views.take(i as int)),
                        *report == *old(report),
                    decreases entries@.len() - i,
                {
                    let entry = entries[i];
                    assert(views[i as int] == entry@);
                    if entry.is_empty() {
                        proof {
                            lemma_macro_prefix_upto(views, i as int);
                        }
                        return true;
                    }
                    buffer.put_report(entry);
                    proof {
                        assert(views.take(i + 1).drop_last() =~= views.take(i as int));
                    }
                    i += 1;
                }
                proof {
                    lemma_macro_prefix_upto(views, i as int);
                }
                true
            },
        }
    }
}

impl KeyActionSet {
    /// The action on `layer`.
    pub fn action(&self, layer: &LayerLevel) -> (r: &KeyAction)
        ensures
            *r == action_for(*self, *layer),
    {
        match layer {
            LayerLevel::NoLayer => &self.base_action,
            LayerLevel::LayerOne => &self.layer_one_action,
            LayerLevel::LayerTwo => &self.layer_two_action,
            LayerLevel::LayerOneAndTwo => &self.layer_one_and_two_action,
        }
    }

    /// Applies the action on `layer`; returns whether it ended the resolution.
    pub fn process_key(
        &self,
        layer: &LayerLevel,
        buffer: &mut KeyboardRingBuffer,
        current_report: &mut KeyboardReportHelper,
    ) -> (r: bool)
        ensures
            (Dispatch { report: final(current_report)@, queue: final(buffer)@, finished: r })
                == apply_action(
                action_for(*self, *layer),
                Dispatch { report: old(current_report)@, queue: old(buffer)@, finished: false },
            ),
    {
        self.action(layer).add_to_buffer(buffer, current_report)
    }
}

impl KeyboardProfile {
    /// The actions bound to `key`: those of its first binding, `None` when it has
    /// none.
    pub fn get_action_set(&self, key: &UniversalKey) -> (r: Option<&KeyActionSet>)
        ensures
            r.is_none() <==> forall|i: int|
                0 <= i < self.bindings@.len() ==> #[trigger] self.bindings@[i].location != *key,
            r.is_some() ==> exists|i: int|
                0 <= i < self.bindings@.len() && self.bindings@[i].location == *key && *r.unwrap()
                    == self.bindings@[i].actions && forall|j: int|
                    0 <= j < i ==> #[trigger] self.bindings@[j].location != *key,
    {
        let mut i: usize = 0;
        while i < self.bindings.len()
            invariant
                0 <= i <= self.bindings@.len(),
                forall|j: int| 0 <= j < i ==> #[trigger] self.bindings@[j].location != *key,
            decreases self.bindings@.len() - i,
        {
            let binding = &self.bindings[i];
            if binding.location == *key {
                return Some(&binding.actions);
            }
            i += 1;
        }
        None
    }

    /// Resolves the two readouts into reports: selects the layer, visits the bound
    /// keys in order, applies the action of each pressed one, and queues either a
    /// macro's reports or the one report built, which is queued even when empty.
    pub fn process_readout(
        &self,
        left_readout: &LeftReadout,
        right_readout: &RightReadout,
        buffer: &mut KeyboardRingBuffer,
    )
        ensures
            final(buffer)@ == resolve(*self, left_readout@, right_readout@, old(buffer)@),
    {
        let layer_one = self.layer_key_1.is_pressed(left_readout, right_readout);
        let layer_two = self.layer_key_2.is_pressed(left_readout, right_readout);
        let layer = LayerLevel::new(layer_one, layer_two);
        let mut report = KeyboardReportHelper::new();
        let ghost n = self.bindings@.len();
        let ghost q0 = buffer@;
        let mut i: usize = 0;
        while i < self.bindings.len()
            invariant
                0 <= i <= n,
                n == self.bindings@.len(),
                layer == profile_layer(*self, left_readout@, right_readout@),
                q0 == old(buffer)@,
                dispatch_upto(self.bindings@, layer, left_readout@, right_readout@, q0, i as nat) == (Dispatch {
                    report: report@,
                    queue: buffer@,
                    finished: false,
                }),
            decreases n - i,
        {
            let binding = &self.bindings[i];
            if binding.location.is_pressed(left_readout, right_readout) {
                if binding.actions.process_key(&layer, buffer, &mut report) {
                    proof {
                        lemma_finished_stays(
                            self.bindings@,
                            layer,
                            left_readout@,
                            right_readout@,
                            q0,
                            (i + 1) as nat,
                            n,
                        );
                    }
                    return;
                }
            }
            i += 1;
        }
        buffer.put_report(report);
    }
}

} // verus!

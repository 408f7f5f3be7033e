//! The roster of peers that a Device notifies when it disconnects.
//!
//! A roster is a sequence of slots in insertion order. Each slot carries the
//! identifier of a Device and, while that Device is to be notified, a Line to
//! it. A slot whose Line was taken away stays in place, free for reuse, unless
//! it was the last one. No identifier stands in two slots.
use vstd::prelude::*;
use crate::device_id::DeviceID;
use crate::line::Line;

verus! {

/// One entry of a roster: whom it is for, and the Line to them if they are
/// currently to be notified.
pub type Slot = (DeviceID, Option<Line>);

/// An edit of a roster.
#[derive(Debug)]
pub enum LineOp {
    /// Notify the Device behind this line.
    Attach(Line),
    /// No longer notify this Device.
    Detach(DeviceID),
}

/// The index of the first slot at or after `from` that is for `did`, or the
/// length of `slots` if there is none.
pub open spec fn find_from(slots: Seq<Slot>, did: DeviceID, from: int) -> int
    decreases slots.len() - from,
{
    if from < 0 || from >= slots.len() {
        slots.len() as int
    } else if slots[from].0 == did {
        from
    } else {
        find_from(slots, did, from + 1)
    }
}

/// The index of the first slot for `did`, or the length of `slots`.
pub open spec fn find(slots: Seq<Slot>, did: DeviceID) -> int {
    find_from(slots, did, 0)
}

/// The index of the first slot at or after `from` that holds no Line, or the
/// length of `slots` if there is none.
pub open spec fn free_from(slots: Seq<Slot>, from: int) -> int
    decreases slots.len() - from,
{
    if from < 0 || from >= slots.len() {
        slots.len() as int
    } else if slots[from].1 is None {
        from
    } else {
        free_from(slots, from + 1)
    }
}

/// The index of the earliest free slot, or the length of `slots`.
pub open spec fn first_free(slots: Seq<Slot>) -> int {
    free_from(slots, 0)
}

/// A roster is in order when no identifier stands in two slots and every
/// Line stands in the slot of the Device it leads to.
pub open spec fn in_order(slots: Seq<Slot>) -> bool {
    &&& forall|i: int, j: int|
        0 <= i < j < slots.len() ==> (#[trigger] slots[i]).0 != (#[trigger] slots[j]).0
    &&& forall|i: int|
        0 <= i < slots.len() ==> ((#[trigger] slots[i]).1 matches Some(line) ==> line.target()
            == slots[i].0)
}

/// Whether `did` is currently to be notified: it has a slot, and the slot
/// holds a Line.
pub open spec fn listed(slots: Seq<Slot>, did: DeviceID) -> bool {
    find(slots, did) < slots.len() && slots[find(slots, did)].1 is Some
}

/// The roster after `line` was attached: the slot of its Device is
/// overwritten in place if there is one; else the earliest free slot is taken
/// over; else a new slot is appended.
pub open spec fn attached(slots: Seq<Slot>, line: Line) -> Seq<Slot> {
    let did = line.target();
    if find(slots, did) < slots.len() {
        slots.update(find(slots, did), (did, Some(line)))
    } else if first_free(slots) < slots.len() {
        slots.update(first_free(slots), (did, Some(line)))
    } else {
        slots.push((did, Some(line)))
    }
}

/// The roster after `did` was detached: its slot is removed if it is the last
/// one and emptied otherwise; a roster without such a slot stays as it is.
pub open spec fn detached(slots: Seq<Slot>, did: DeviceID) -> Seq<Slot> {
    let at = find(slots, did);
    if at >= slots.len() {
        slots
    } else if at == slots.len() - 1 {
        slots.drop_last()
    } else {
        slots.update(at, (did, None))
    }
}

/// The roster after one edit.
pub open spec fn applied(slots: Seq<Slot>, op: LineOp) -> Seq<Slot> {
    match op {
        LineOp::Attach(line) => attached(slots, line),
        LineOp::Detach(did) => detached(slots, did),
    }
}

/// The roster after the edits `ops`, oldest first.
pub open spec fn applied_all(slots: Seq<Slot>, ops: Seq<LineOp>) -> Seq<Slot>
    decreases ops.len(),
{
    if ops.len() == 0 {
        slots
    } else {
        applied(applied_all(slots, ops.drop_last()), ops.last())
    }
}

/// The Lines of a roster, in slot order: whom a broadcast reaches.
pub open spec fn recipients(slots: Seq<Slot>) -> Seq<Line>
    decreases slots.len(),
{
    if slots.len() == 0 {
        Seq::empty()
    } else {
        match slots.last().1 {
            Some(line) => recipients(slots.drop_last()).push(line),
            None => recipients(slots.drop_last()),
        }
    }
}

/// `find_from` returns an index between `from` and the length; a slot at the
/// index is for `did`, and no slot between `from` and the index is.
pub proof fn lemma_find_from(slots: Seq<Slot>, did: DeviceID, from: int)
    requires
        0 <= from <= slots.len(),
    ensures
        from <= find_from(slots, did, from) <= slots.len(),
        find_from(slots, did, from) < slots.len() ==> slots[find_from(slots, did, from)].0 == did,
        forall|k: int| from <= k < find_from(slots, did, from) ==> (#[trigger] slots[k]).0 != did,
    decreases slots.len() - from,
{
    if from < slots.len() && slots[from].0 != did {
        lemma_find_from(slots, did, from + 1);
    }
}

/// `free_from` returns an index between `from` and the length; a slot at the
/// index is free, and no slot between `from` and the index is.
pub proof fn lemma_free_from(slots: Seq<Slot>, from: int)
    requires
        0 <= from <= slots.len(),
    ensures
        from <= free_from(slots, from) <= slots.len(),
        free_from(slots, from) < slots.len() ==> slots[free_from(slots, from)].1 is None,
        forall|k: int| from <= k < free_from(slots, from) ==> (#[trigger] slots[k]).1 is Some,
    decreases slots.len() - from,
{
    if from < slots.len() && slots[from].1 is Some {
        lemma_free_from(slots, from + 1);
    }
}

/// The first slot for `did` is at `at` when no earlier slot is for `did` and
/// the slot at `at`, if there is one, is.
pub proof fn lemma_find_is(slots: Seq<Slot>, did: DeviceID, at: int)
    requires
        0 <= at <= slots.len(),
        forall|k: int| 0 <= k < at ==> (#[trigger] slots[k]).0 != did,
        at < slots.len() ==> slots[at].0 == did,
    ensures
        find(slots, did) == at,
{
    lemma_find_from(slots, did, 0);
}

/// The earliest free slot is at `at` when every earlier slot holds a Line and
/// the slot at `at`, if there is one, holds none.
pub proof fn lemma_first_free_is(slots: Seq<Slot>, at: int)
    requires
        0 <= at <= slots.len(),
        forall|k: int| 0 <= k < at ==> (#[trigger] slots[k]).1 is Some,
        at < slots.len() ==> slots[at].1 is None,
    ensures
        first_free(slots) == at,
{
    lemma_free_from(slots, 0);
}

/// Attaching keeps a roster in order.
pub proof fn lemma_attached_in_order(slots: Seq<Slot>, line: Line)
    requires
        in_order(slots),
    ensures
        in_order(attached(slots, line)),
{
    lemma_find_from(slots, line.target(), 0);
    lemma_free_from(slots, 0);
}

/// Detaching keeps a roster in order.
pub proof fn lemma_detached_in_order(slots: Seq<Slot>, did: DeviceID)
    requires
        in_order(slots),
    ensures
        in_order(detached(slots, did)),
{
    lemma_find_from(slots, did, 0);
}

/// Edits keep a roster in order.
pub proof fn lemma_applied_all_in_order(slots: Seq<Slot>, ops: Seq<LineOp>)
    requires
        in_order(slots),
    ensures
        in_order(applied_all(slots, ops)),
    decreases ops.len(),
{
    if ops.len() > 0 {
        lemma_applied_all_in_order(slots, ops.drop_last());
        let before = applied_all(slots, ops.drop_last());
        match ops.last() {
            LineOp::Attach(line) => lemma_attached_in_order(before, line),
            LineOp::Detach(did) => lemma_detached_in_order(before, did),
        }
    }
}

/// How many of `lines` lead to `did`.
pub open spec fn times_reached(lines: Seq<Line>, did: DeviceID) -> nat
    decreases lines.len(),
{
    if lines.len() == 0 {
        0
    } else {
        times_reached(lines.drop_last(), did) + (if lines.last().target() == did {
            1nat
        } else {
            0nat
        })
    }
}

/// In a roster that is in order, `did` is listed exactly when some slot is
/// for `did` and holds a Line.
pub proof fn lemma_listed(slots: Seq<Slot>, did: DeviceID)
    requires
        in_order(slots),
    ensures
        listed(slots, did) <==> exists|i: int|
            0 <= i < slots.len() && (#[trigger] slots[i]).0 == did && slots[i].1 is Some,
{
    lemma_find_from(slots, did, 0);
    if listed(slots, did) {
        assert(slots[find(slots, did)].0 == did);
    }
}

/// A broadcast reaches a listed Device once, and no other: in a roster that
/// is in order, exactly one recipient leads to `did` if `did` is listed, and
/// none does otherwise.
pub proof fn law_listed_is_reached_once(slots: Seq<Slot>, did: DeviceID)
    requires
        in_order(slots),
    ensures
        times_reached(recipients(slots), did) == (if listed(slots, did) {
            1nat
        } else {
            0nat
        }),
    decreases slots.len(),
{
    lemma_listed(slots, did);
    if slots.len() > 0 {
        let front = slots.drop_last();
        let last = slots.last();
        assert(in_order(front)) by {
            assert forall|i: int, j: int| 0 <= i < j < front.len() implies (#[trigger] front[i]).0
                != (#[trigger] front[j]).0 by {
                assert(front[i] == slots[i] && front[j] == slots[j]);
            }
            assert forall|i: int| 0 <= i < front.len() implies ((#[trigger] front[i]).1 matches Some(
                line,
            ) ==> line.target() == front[i].0) by {
                assert(front[i] == slots[i]);
            }
        }
        law_listed_is_reached_once(front, did);
        lemma_listed(front, did);
        let at_end = last.0 == did && last.1 is Some;
        if listed(front, did) {
            let i = choose|i: int|
                0 <= i < front.len() && (#[trigger] front[i]).0 == did && front[i].1 is Some;
            assert(slots[i] == front[i]);
            assert(slots[i].0 != slots[slots.len() - 1].0);
            assert(!at_end);
            assert(listed(slots, did));
        } else if at_end {
            assert(slots[slots.len() - 1].0 == did);
            assert(listed(slots, did));
        } else {
            if listed(slots, did) {
                let i = choose|i: int|
                    0 <= i < slots.len() && (#[trigger] slots[i]).0 == did && slots[i].1 is Some;
                assert(i < front.len());
                assert(front[i] == slots[i]);
                assert(false);
            }
        }
        match last.1 {
            Some(line) => {
                assert(line.target() == last.0);
                assert(recipients(slots) == recipients(front).push(line));
                assert(recipients(slots).drop_last() =~= recipients(front));
            },
            None => {},
        }
    }
}

/// After a Line was attached, its Device is listed, and every other Device is
/// listed as before.
pub proof fn law_attach_lists(slots: Seq<Slot>, line: Line, did: DeviceID)
    requires
        in_order(slots),
    ensures
        listed(attached(slots, line), did) == (did == line.target() || listed(slots, did)),
{
    let after = attached(slots, line);
    lemma_attached_in_order(slots, line);
    lemma_listed(slots, did);
    lemma_listed(after, did);
    lemma_find_from(slots, line.target(), 0);
    lemma_free_from(slots, 0);
    let at = if find(slots, line.target()) < slots.len() {
        find(slots, line.target())
    } else {
        first_free(slots)
    };
    assert(after[at] == (line.target(), Some(line)));
    if listed(slots, did) && did != line.target() {
        let i = choose|i: int|
            0 <= i < slots.len() && (#[trigger] slots[i]).0 == did && slots[i].1 is Some;
        assert(after[i] == slots[i]);
    }
    if listed(after, did) && did != line.target() {
        let i = choose|i: int|
            0 <= i < after.len() && (#[trigger] after[i]).0 == did && after[i].1 is Some;
        assert(i != at);
        assert(after[i] == slots[i]);
    }
}

/// After a Device was detached, it is not listed, and every other Device is
/// listed as before.
pub proof fn law_detach_unlists(slots: Seq<Slot>, gone: DeviceID, did: DeviceID)
    requires
        in_order(slots),
    ensures
        listed(detached(slots, gone), did) == (did != gone && listed(slots, did)),
{
    let after = detached(slots, gone);
    lemma_detached_in_order(slots, gone);
    lemma_listed(slots, did);
    lemma_listed(after, did);
    lemma_find_from(slots, gone, 0);
    let at = find(slots, gone);
    if listed(slots, did) && did != gone {
        let i = choose|i: int|
            0 <= i < slots.len() && (#[trigger] slots[i]).0 == did && slots[i].1 is Some;
        assert(i != at);
        assert(after[i] == slots[i]);
    }
    if listed(after, did) {
        let i = choose|i: int|
            0 <= i < after.len() && (#[trigger] after[i]).0 == did && after[i].1 is Some;
        if at < slots.len() && at != slots.len() - 1 {
            assert(i != at);
        }
        assert(after[i] == slots[i]);
        if did == gone {
            assert(slots[i].0 == slots[at].0);
            assert(i == at);
        }
    }
}

/// Two rosters with the same Lines in the same slots have the same
/// recipients, whomever the free slots were for.
pub proof fn lemma_recipients_by_lines(a: Seq<Slot>, b: Seq<Slot>)
    requires
        a.len() == b.len(),
        forall|i: int| 0 <= i < a.len() ==> (#[trigger] a[i]).1 == (#[trigger] b[i]).1,
    ensures
        recipients(a) == recipients(b),
    decreases a.len(),
{
    if a.len() > 0 {
        assert(a.last().1 == a[a.len() - 1].1 && b.last().1 == b[b.len() - 1].1);
        assert forall|i: int| 0 <= i < a.drop_last().len() implies (#[trigger] a.drop_last()[i]).1
            == (#[trigger] b.drop_last()[i]).1 by {
            assert(a.drop_last()[i] == a[i] && b.drop_last()[i] == b[i]);
        }
        lemma_recipients_by_lines(a.drop_last(), b.drop_last());
    }
}

/// Detaching a Device that is not listed changes nobody's recipients.
pub proof fn law_detach_unlisted_changes_nothing(slots: Seq<Slot>, did: DeviceID)
    requires
        in_order(slots),
        !listed(slots, did),
    ensures
        recipients(detached(slots, did)) == recipients(slots),
{
    lemma_find_from(slots, did, 0);
    let at = find(slots, did);
    if at < slots.len() {
        if at == slots.len() - 1 {
            assert(slots.last().1 is None);
        } else {
            lemma_recipients_by_lines(detached(slots, did), slots);
        }
    }
}

/// A listed Device stays listed through edits that do not detach it.
pub proof fn law_listed_survives_edits(slots: Seq<Slot>, ops: Seq<LineOp>, did: DeviceID)
    requires
        in_order(slots),
        listed(slots, did),
        forall|k: int| 0 <= k < ops.len() ==> ops[k] != LineOp::Detach(did),
    ensures
        listed(applied_all(slots, ops), did),
    decreases ops.len(),
{
    if ops.len() > 0 {
        let before = applied_all(slots, ops.drop_last());
        assert forall|k: int| 0 <= k < ops.drop_last().len() implies ops.drop_last()[k]
            != LineOp::Detach(did) by {
            assert(ops.drop_last()[k] == ops[k]);
        }
        law_listed_survives_edits(slots, ops.drop_last(), did);
        lemma_applied_all_in_order(slots, ops.drop_last());
        assert(ops.last() == ops[ops.len() - 1]);
        match ops.last() {
            LineOp::Attach(line) => law_attach_lists(before, line, did),
            LineOp::Detach(gone) => law_detach_unlists(before, gone, did),
        }
    }
}

/// A subscription that is pending is not lost: if the edit at `at` attaches
/// a Line and no later edit detaches its Device, the Device is listed once
/// all edits are applied.
pub proof fn law_pending_attach_lists(slots: Seq<Slot>, ops: Seq<LineOp>, at: int, line: Line)
    requires
        in_order(slots),
        0 <= at < ops.len(),
        ops[at] == LineOp::Attach(line),
        forall|k: int| at < k < ops.len() ==> ops[k] != LineOp::Detach(line.target()),
    ensures
        listed(applied_all(slots, ops), line.target()),
    decreases ops.len(),
{
    let before = applied_all(slots, ops.drop_last());
    lemma_applied_all_in_order(slots, ops.drop_last());
    assert(ops.last() == ops[ops.len() - 1]);
    if at == ops.len() - 1 {
        law_attach_lists(before, line, line.target());
    } else {
        assert(ops.drop_last()[at] == ops[at]);
        assert forall|k: int| at < k < ops.drop_last().len() implies ops.drop_last()[k]
            != LineOp::Detach(line.target()) by {
            assert(ops.drop_last()[k] == ops[k]);
        }
        law_pending_attach_lists(slots, ops.drop_last(), at, line);
        match ops.last() {
            LineOp::Attach(other) => law_attach_lists(before, other, line.target()),
            LineOp::Detach(gone) => law_detach_unlists(before, gone, line.target()),
        }
    }
}

/// The roster of one Device: whom to notify when it disconnects.
#[derive(Debug)]
pub struct LineMap {
    slots: Vec<Slot>,
}

impl View for LineMap {
    type V = Seq<Slot>;

    /// The slots, in insertion order.
    closed spec fn view(&self) -> Seq<Slot> {
        self.slots@
    }
}

impl LineMap {
    /// A roster is well formed when it is in order. A new roster is, and
    /// every operation keeps it so.
    pub open spec fn well_formed(&self) -> bool {
        in_order(self@)
    }

    /// An empty roster.
    pub fn new() -> (map: LineMap)
        ensures
            map@ == Seq::<Slot>::empty(),
            map.well_formed(),
    {
        LineMap { slots: Vec::new() }
    }

    /// Applies one edit.
    pub fn apply(&mut self, op: LineOp)
        ensures
            final(self)@ == applied(old(self)@, op),
            old(self).well_formed() ==> final(self).well_formed(),
    {
        match op {
            LineOp::Attach(line) => {
                self.attach(line);
            },
            LineOp::Detach(did) => {
                self.detach(did);
            },
        }
    }

    /// Applies edits, oldest first.
    pub fn apply_all(&mut self, ops: Vec<LineOp>)
        ensures
            final(self)@ == applied_all(old(self)@, ops@),
            old(self).well_formed() ==> final(self).well_formed(),
    {
        proof {
            if self.well_formed() {
                lemma_applied_all_in_order(self@, ops@);
            }
        }
        let ghost all = ops@;
        let ghost start = self@;
        for op in edits: ops
            invariant
                edits.seq() == all,
                self@ == applied_all(start, all.take(edits.index() as int)),
                start == old(self)@,
        {
            proof {
                let done = edits.index() as int;
                assert(all.take(done + 1).drop_last() =~= all.take(done));
                assert(all.take(done + 1).last() == op);
            }
            self.apply(op);
        }
        proof {
            assert(all.take(all.len() as int) =~= all);
        }
    }

    /// Returns whether a slot for the Device of the line was found and
    /// overwritten. Otherwise the line went into the earliest free slot or, if
    /// there was none, into a new slot at the end.
    pub fn attach(&mut self, line: Line) -> (replaced: bool)
        ensures
            final(self)@ == attached(old(self)@, line),
            replaced == (find(old(self)@, line.target()) < old(self)@.len()),
            old(self).well_formed() ==> final(self).well_formed(),
    {
        proof {
            if self.well_formed() {
                lemma_attached_in_order(self.slots@, line);
            }
        }
        let did = line.device_id();
        let n: usize = self.slots.len();
        let mut free: usize = n;
        let mut i: usize = 0;
        while i < n
            invariant
                n == self.slots@.len(),
                self.slots@ == old(self).slots@,
                0 <= i <= n,
                free <= n,
                did == line.target(),
                forall|k: int| 0 <= k < i ==> (#[trigger] self.slots@[k]).0 != did,
                free < n ==> free < i && self.slots@[free as int].1 is None,
                forall|k: int| 0 <= k < i && k < free ==> (#[trigger] self.slots@[k]).1 is Some,
            decreases n - i,
        {
            if self.slots[i].0 == did {
                proof {
                    lemma_find_is(self.slots@, did, i as int);
                }
                self.slots.set(i, (did, Some(line)));
                return true;
            }
            if free == n && self.slots[i].1.is_none() {
                free = i;
            }
            i = i + 1;
        }
        proof {
            lemma_find_is(self.slots@, did, n as int);
            lemma_first_free_is(self.slots@, free as int);
        }
        if free < n {
            self.slots.set(free, (did, Some(line)));
        } else {
            self.slots.push((did, Some(line)));
        }
        false
    }

    /// Returns whether `did` was listed: whether its slot held a Line before
    /// the call. The slot is emptied, or removed if it was the last one.
    pub fn detach(&mut self, did: DeviceID) -> (removed: bool)
        ensures
            final(self)@ == detached(old(self)@, did),
            removed == listed(old(self)@, did),
            old(self).well_formed() ==> final(self).well_formed(),
    {
        proof {
            if self.well_formed() {
                lemma_detached_in_order(self.slots@, did);
            }
        }
        let n: usize = self.slots.len();
        let mut i: usize = 0;
        while i < n
            invariant
                n == self.slots@.len(),
                self.slots@ == old(self).slots@,
                0 <= i <= n,
                forall|k: int| 0 <= k < i ==> (#[trigger] self.slots@[k]).0 != did,
            decreases n - i,
        {
            if self.slots[i].0 == did {
                proof {
                    lemma_find_is(self.slots@, did, i as int);
                }
                let occupied = self.slots[i].1.is_some();
                if i == n - 1 {
                    self.slots.pop();
                } else {
                    self.slots.set(i, (did, None));
                }
                return occupied;
            }
            i = i + 1;
        }
        proof {
            lemma_find_is(self.slots@, did, n as int);
        }
        false
    }

    /// Takes `did` off the roster, as `detach` does. If `did` was not listed,
    /// its subscription may still be among the pending edits: then `did` comes
    /// back, to be struck from there.
    pub fn detach_or_defer(&mut self, did: DeviceID) -> (pending: Option<DeviceID>)
        ensures
            final(self)@ == detached(old(self)@, did),
            pending == (if listed(old(self)@, did) {
                None
            } else {
                Some(did)
            }),
            old(self).well_formed() ==> final(self).well_formed(),
    {
        if self.detach(did) {
            None
        } else {
            Some(did)
        }
    }

    /// Hands out all slots in insertion order and leaves the roster empty.
    pub fn drain(&mut self) -> (slots: Vec<Slot>)
        ensures
            slots@ == old(self)@,
            final(self)@ == Seq::<Slot>::empty(),
            final(self).well_formed(),
    {
        let mut taken: Vec<Slot> = Vec::new();
        core::mem::swap(&mut self.slots, &mut taken);
        taken
    }
}

} // verus!

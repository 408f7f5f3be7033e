//! Devices: the units of supervision.
//!
//! A Device owns a plugboard, which it shares with the Lines to it, and a
//! roster of the peers that it notifies when it disconnects. It disconnects
//! once: by `disconnect`, by a crash under supervision, or when it is dropped.
use vstd::prelude::*;
use std::sync::Arc;
use std::task::Waker;
use crate::{LinkError, LinkMode, Message};
use crate::crash::Crash;
use crate::device_id::DeviceID;
use crate::fault::Fault;
use crate::line::{plan_unlink, Line};
use crate::linemap::{
    applied_all, attached, detached, in_order, law_attach_lists, law_detach_unlisted_changes_nothing,
    law_detach_unlists, law_listed_is_reached_once, law_listed_survives_edits,
    law_pending_attach_lists, lemma_applied_all_in_order, lemma_attached_in_order,
    lemma_detached_in_order, listed, recipients, times_reached, LineMap, LineOp, Slot,
};
use crate::plugboard::{Plugboard, Popped};
use crate::watched::Watched;

verus! {

/// What a Device is, as far as contracts speak of it.
pub ghost struct DeviceState {
    /// Its identifier.
    pub id: DeviceID,
    /// The Line that leads to it.
    pub line: Line,
    /// The slots of its roster, in insertion order.
    pub roster: Seq<Slot>,
    /// What it told its peers when it disconnected, once it has.
    pub farewell: Option<Message>,
    /// Whether its stream of messages has ended.
    pub ended: bool,
}

impl DeviceState {
    /// Whether the terminal broadcast has been performed.
    pub open spec fn done(self) -> bool {
        self.farewell is Some
    }

    /// A state is sound when the Line leads to the Device, the roster is in
    /// order, and the stream of a Device that has disconnected has ended.
    pub open spec fn sound(self) -> bool {
        &&& self.line.target() == self.id
        &&& in_order(self.roster)
        &&& self.done() ==> self.ended
    }

    /// The state with another roster.
    pub open spec fn with_roster(self, roster: Seq<Slot>) -> DeviceState {
        DeviceState { roster, ..self }
    }

    /// The state after the Device was asked to notify the Device behind
    /// `line`, if `wanted`.
    pub open spec fn attaching(self, line: Line, wanted: bool) -> DeviceState {
        if wanted {
            self.with_roster(attached(self.roster, line))
        } else {
            self
        }
    }

    /// The state after the Device was asked no longer to notify `did`, if
    /// `wanted`.
    pub open spec fn detaching(self, did: DeviceID, wanted: bool) -> DeviceState {
        if wanted {
            self.with_roster(detached(self.roster, did))
        } else {
            self
        }
    }

    /// The state after the terminal broadcast with `fault`: the roster is used
    /// up, the farewell is on record and the stream has ended.
    pub open spec fn disconnected(self, fault: Option<Fault>) -> DeviceState {
        DeviceState {
            roster: Seq::empty(),
            farewell: Some(Message::Disconnected(self.id, fault)),
            ended: true,
            ..self
        }
    }

    /// The terminal broadcast with `fault`, the edits `ops` being pending:
    /// what is said, and the Lines it goes down, in order. The edits are
    /// applied first, so that nobody who subscribed in time is left out.
    pub open spec fn last_words(self, ops: Seq<LineOp>, fault: Option<Fault>) -> (
        Message,
        Seq<Line>,
    ) {
        (Message::Disconnected(self.id, fault), recipients(applied_all(self.roster, ops)))
    }

    /// The state after the Device was told to disconnect with `fault`: one
    /// that has disconnected before stays as it is.
    pub open spec fn ending(self, fault: Option<Fault>) -> DeviceState {
        if self.done() {
            self
        } else {
            self.disconnected(fault)
        }
    }

    /// The state after the Device was let go of: one that has not
    /// disconnected does so now, with `Fault::Drop`.
    pub open spec fn released(self) -> DeviceState {
        self.ending(Some(Fault::Drop))
    }

    /// The state after one round of supervision that leaves the Device to
    /// its owner when the computation succeeds. A crash disconnects the
    /// Device with the fault that the crash announces; the orderly
    /// disconnect of a peer takes the peer off the roster; success changes
    /// nothing.
    pub open spec fn part_settled<T, C>(
        self,
        watched: Result<Watched<Result<T, C>>, Crash<C>>,
    ) -> DeviceState {
        match Verdict::of(watched) {
            Verdict::Again => self.detaching(watched->Ok_0->Messaged_0.origin(), true),
            Verdict::Done(_) => self,
            Verdict::Failed(crash) => self.ending(crash.announced()),
        }
    }

    /// The state after one round of supervision that uses the Device up:
    /// as `part_settled`, but success disconnects the Device in an orderly
    /// way.
    pub open spec fn settled<T, C>(
        self,
        watched: Result<Watched<Result<T, C>>, Crash<C>>,
    ) -> DeviceState {
        match Verdict::of(watched) {
            Verdict::Done(_) => self.ending(None),
            _ => self.part_settled(watched),
        }
    }
}

/// The states of two Devices after the first was linked with the second:
/// with a mode that notifies, the first is to notify the second; with a mode
/// that monitors, the second is to notify the first.
pub open spec fn linked(me: DeviceState, other: DeviceState, mode: LinkMode) -> (
    DeviceState,
    DeviceState,
) {
    (me.attaching(other.line, mode.notifies()), other.attaching(me.line, mode.monitors()))
}

/// The states of two Devices after the first was unlinked from the second.
pub open spec fn unlinked(me: DeviceState, other: DeviceState, mode: LinkMode) -> (
    DeviceState,
    DeviceState,
) {
    (me.detaching(other.id, mode.notifies()), other.detaching(me.id, mode.monitors()))
}

/// Nothing that happens to a Device changes its identifier or the Line that
/// leads to it.
pub proof fn law_identity_is_constant<T, C>(
    state: DeviceState,
    line: Line,
    did: DeviceID,
    wanted: bool,
    fault: Option<Fault>,
    watched: Result<Watched<Result<T, C>>, Crash<C>>,
)
    ensures
        state.attaching(line, wanted).id == state.id,
        state.attaching(line, wanted).line == state.line,
        state.detaching(did, wanted).id == state.id,
        state.detaching(did, wanted).line == state.line,
        state.ending(fault).id == state.id,
        state.ending(fault).line == state.line,
        state.released().id == state.id,
        state.released().line == state.line,
        state.part_settled(watched).id == state.id,
        state.part_settled(watched).line == state.line,
        state.settled(watched).id == state.id,
        state.settled(watched).line == state.line,
{
}

/// The terminal broadcast happens once: whatever a Device is told to
/// disconnect with first goes on record, telling it again changes nothing,
/// and letting go of it afterwards changes nothing either. A Device that is
/// let go of has disconnected, whatever happened before.
pub proof fn law_terminal_broadcast_once(
    state: DeviceState,
    first: Option<Fault>,
    second: Option<Fault>,
)
    ensures
        state.ending(first).done(),
        !state.done() ==> state.ending(first).farewell == Some(
            Message::Disconnected(state.id, first),
        ),
        state.ending(first).ending(second) == state.ending(first),
        state.ending(first).released() == state.ending(first),
        state.released().done(),
        !state.done() ==> state.released().farewell == Some(
            Message::Disconnected(state.id, Some(Fault::Drop)),
        ),
{
}

/// Once a Device has disconnected, no round of supervision changes what it
/// has told its peers.
pub proof fn law_farewell_stays<T, C>(
    state: DeviceState,
    watched: Result<Watched<Result<T, C>>, Crash<C>>,
)
    requires
        state.done(),
    ensures
        state.part_settled(watched).farewell == state.farewell,
        state.settled(watched).farewell == state.farewell,
{
}

/// A Device that monitors another is told once when the other disconnects:
/// after `watcher` was linked with `watched` in a mode that monitors, the
/// terminal broadcast of `watched` names `watched` and its fault, and exactly
/// one of the Lines it goes down leads to `watcher`, whatever edits are
/// pending, as long as none of them detaches `watcher`.
pub proof fn law_monitor_is_told_once(
    watcher: DeviceState,
    watched: DeviceState,
    mode: LinkMode,
    ops: Seq<LineOp>,
    fault: Option<Fault>,
)
    requires
        watcher.sound(),
        watched.sound(),
        mode.monitors(),
        forall|k: int| 0 <= k < ops.len() ==> ops[k] != LineOp::Detach(watcher.id),
    ensures
        linked(watcher, watched, mode).1.last_words(ops, fault).0 == Message::Disconnected(
            watched.id,
            fault,
        ),
        times_reached(linked(watcher, watched, mode).1.last_words(ops, fault).1, watcher.id) == 1,
{
    let roster = linked(watcher, watched, mode).1.roster;
    lemma_attached_in_order(watched.roster, watcher.line);
    law_attach_lists(watched.roster, watcher.line, watcher.id);
    law_listed_survives_edits(roster, ops, watcher.id);
    lemma_applied_all_in_order(roster, ops);
    law_listed_is_reached_once(applied_all(roster, ops), watcher.id);
}

/// A Device that subscribed through the edit queue in time is told once: if
/// among the pending edits one attaches a Line and no later one detaches its
/// Device, exactly one of the Lines of the terminal broadcast leads there.
pub proof fn law_late_subscriber_is_told_once(
    state: DeviceState,
    ops: Seq<LineOp>,
    at: int,
    line: Line,
    fault: Option<Fault>,
)
    requires
        state.sound(),
        0 <= at < ops.len(),
        ops[at] == LineOp::Attach(line),
        forall|k: int| at < k < ops.len() ==> ops[k] != LineOp::Detach(line.target()),
    ensures
        state.last_words(ops, fault).0 == Message::Disconnected(state.id, fault),
        times_reached(state.last_words(ops, fault).1, line.target()) == 1,
{
    law_pending_attach_lists(state.roster, ops, at, line);
    lemma_applied_all_in_order(state.roster, ops);
    law_listed_is_reached_once(applied_all(state.roster, ops), line.target());
}

/// Nobody is told twice: no two Lines of a terminal broadcast lead to the
/// same Device, whatever edits are pending.
pub proof fn law_nobody_is_told_twice(
    state: DeviceState,
    ops: Seq<LineOp>,
    fault: Option<Fault>,
    did: DeviceID,
)
    requires
        state.sound(),
    ensures
        times_reached(state.last_words(ops, fault).1, did) <= 1,
{
    lemma_applied_all_in_order(state.roster, ops);
    law_listed_is_reached_once(applied_all(state.roster, ops), did);
}

/// No Device notifies itself: linking two different Devices, neither of
/// which lists itself, leaves neither listing itself.
pub proof fn law_no_self_notification(me: DeviceState, other: DeviceState, mode: LinkMode)
    requires
        me.sound(),
        other.sound(),
        me.id != other.id,
        !listed(me.roster, me.id),
        !listed(other.roster, other.id),
    ensures
        !listed(linked(me, other, mode).0.roster, me.id),
        !listed(linked(me, other, mode).1.roster, other.id),
{
    law_attach_lists(me.roster, other.line, me.id);
    law_attach_lists(other.roster, me.line, other.id);
}

/// A solo Device whose computation succeeds: the round is settled with the
/// value; where the Device is used up it disconnects in an orderly way, and
/// nobody is there to be told; letting go of it afterwards changes nothing.
/// Where the Device is left to its owner it stays as it is.
pub proof fn law_solo_success<T, C>(state: DeviceState, value: T)
    requires
        state.sound(),
        !state.done(),
        state.roster == Seq::<Slot>::empty(),
    ensures
        Verdict::<T, C>::of(Ok(Watched::Completed(Ok(value)))) == Verdict::<T, C>::Done(value),
        state.settled::<T, C>(Ok(Watched::Completed(Ok(value)))) == state.disconnected(None),
        state.disconnected(None).farewell == Some(Message::Disconnected(state.id, None)),
        state.disconnected(None).released() == state.disconnected(None),
        state.last_words(Seq::<LineOp>::empty(), None).1 == Seq::<Line>::empty(),
        state.part_settled::<T, C>(Ok(Watched::Completed(Ok(value)))) == state,
{
}

/// Unlinking what is not linked changes nobody's recipients: where neither
/// Device is listed by the other, both reach after the unlinking whom they
/// reached before.
pub proof fn law_unlink_unlinked(me: DeviceState, other: DeviceState, mode: LinkMode)
    requires
        me.sound(),
        other.sound(),
        !listed(me.roster, other.id),
        !listed(other.roster, me.id),
    ensures
        recipients(unlinked(me, other, mode).0.roster) == recipients(me.roster),
        recipients(unlinked(me, other, mode).1.roster) == recipients(other.roster),
        unlinked(me, other, mode).0.sound(),
        unlinked(me, other, mode).1.sound(),
{
    law_detach_unlisted_changes_nothing(me.roster, other.id);
    law_detach_unlisted_changes_nothing(other.roster, me.id);
    lemma_detached_in_order(me.roster, other.id);
    lemma_detached_in_order(other.roster, me.id);
}

/// Linking as peers and then unlinking as peers leaves neither Device to be
/// told of the other: no recipient of either leads to the other, and every
/// third Device is listed as it was before.
pub proof fn law_link_then_unlink(me: DeviceState, other: DeviceState, third: DeviceID)
    requires
        me.sound(),
        other.sound(),
        me.id != other.id,
        third != me.id,
        third != other.id,
    ensures
        ({
            let (a, b) = linked(me, other, LinkMode::Peer);
            let (a, b) = unlinked(a, b, LinkMode::Peer);
            &&& times_reached(recipients(a.roster), other.id) == 0
            &&& times_reached(recipients(b.roster), me.id) == 0
            &&& listed(a.roster, third) == listed(me.roster, third)
            &&& listed(b.roster, third) == listed(other.roster, third)
            &&& a.sound()
            &&& b.sound()
        }),
{
    let (a1, b1) = linked(me, other, LinkMode::Peer);
    let (a2, b2) = unlinked(a1, b1, LinkMode::Peer);
    lemma_attached_in_order(me.roster, other.line);
    lemma_attached_in_order(other.roster, me.line);
    lemma_detached_in_order(a1.roster, other.id);
    lemma_detached_in_order(b1.roster, me.id);
    law_attach_lists(me.roster, other.line, third);
    law_attach_lists(other.roster, me.line, third);
    law_detach_unlists(a1.roster, other.id, third);
    law_detach_unlists(b1.roster, me.id, third);
    law_detach_unlists(a1.roster, other.id, other.id);
    law_detach_unlists(b1.roster, me.id, me.id);
    law_listed_is_reached_once(a2.roster, other.id);
    law_listed_is_reached_once(b2.roster, me.id);
}

/// Linking to monitor and linking to notify, in either order, come to the
/// same as linking as peers.
pub proof fn law_monitor_and_notify_make_peer(me: DeviceState, other: DeviceState)
    ensures
        ({
            let (a, b) = linked(me, other, LinkMode::Monitor);
            linked(a, b, LinkMode::Notify)
        }) == linked(me, other, LinkMode::Peer),
        ({
            let (a, b) = linked(me, other, LinkMode::Notify);
            linked(a, b, LinkMode::Monitor)
        }) == linked(me, other, LinkMode::Peer),
{
}

/// What one round of supervision came to.
#[derive(Debug)]
pub enum Verdict<T, C> {
    /// A peer disconnected in an orderly way: go on watching.
    Again,
    /// The computation succeeded with this value.
    Done(T),
    /// The Device crashed, and has told its peers.
    Failed(Crash<C>),
}

impl<T, C> Verdict<T, C> {
    /// The verdict on what watching brought: a value is success, an error
    /// of the computation is a crash, the fault of a peer cascades, the
    /// orderly disconnect of a peer is no reason to stop, a request to shut
    /// down is obeyed, and a crash stays a crash.
    pub open spec fn of(watched: Result<Watched<Result<T, C>>, Crash<C>>) -> Verdict<T, C> {
        match watched {
            Ok(Watched::Completed(Ok(value))) => Verdict::Done(value),
            Ok(Watched::Completed(Err(error))) => Verdict::Failed(Crash::Error(error)),
            Ok(Watched::Messaged(Message::Disconnected(sender, Some(fault)))) => Verdict::Failed(
                Crash::Cascade(sender, fault),
            ),
            Ok(Watched::Messaged(Message::Disconnected(_, None))) => Verdict::Again,
            Ok(Watched::Messaged(Message::Shutdown(origin))) => Verdict::Failed(
                Crash::PowerOff(origin),
            ),
            Err(crash) => Verdict::Failed(crash),
        }
    }
}

/// A terminal broadcast that is ready to go out.
#[derive(Debug)]
pub struct Broadcast {
    /// What is said.
    pub message: Message,
    /// To whom, in the order in which they are told.
    pub lines: Vec<Line>,
}

impl Broadcast {
    /// Sends the message down every line, in order. A line whose Device has
    /// disconnected hands the message back, and it goes to the next.
    pub fn deliver(self) {
        let message = self.message;
        let lines = self.lines;
        let mut last: Option<Message> = None;
        for line in lines
            invariant
                last matches Some(back) ==> back == message,
        {
            let m = match last {
                Some(back) => back,
                None => message,
            };
            assert(m == message);
            last = match line.send(m) {
                Ok(()) => None,
                Err(back) => Some(back),
            };
        }
    }
}

/// A Device connects a Future to the backplane.
#[derive(Debug)]
pub struct Device {
    id: DeviceID,
    plugboard: Arc<Plugboard>,
    out: LineMap,
    farewell: Option<Message>,
    ended: bool,
}

impl View for Device {
    type V = DeviceState;

    closed spec fn view(&self) -> DeviceState {
        DeviceState {
            id: self.id,
            line: Line { id: self.id, plugboard: self.plugboard },
            roster: self.out@,
            farewell: self.farewell,
            ended: self.ended,
        }
    }
}

impl Device {
    /// Creates a new Device: nobody to notify, not disconnected.
    pub fn new() -> (device: Device)
        ensures
            device@.sound(),
            device@.roster == Seq::<Slot>::empty(),
            device@.farewell is None,
            !device@.ended,
    {
        let plugboard = Arc::new(Plugboard::new());
        let id = DeviceID::new(Plugboard::address(&plugboard));
        proof {
            (Line { id, plugboard }).lemma_target();
        }
        Device { id, plugboard, out: LineMap::new(), farewell: None, ended: false }
    }

    /// Get the ID of this Device.
    pub fn device_id(&self) -> (did: DeviceID)
        ensures
            did == self@.id,
    {
        self.id
    }

    /// Opens a line to the Device.
    pub fn line(&self) -> (line: Line)
        ensures
            line == self@.line,
            line.target() == self@.id,
    {
        proof {
            self@.line.lemma_target();
        }
        Line { id: self.id, plugboard: Plugboard::share(&self.plugboard) }
    }

    /// Whether the Device has performed its terminal broadcast.
    pub fn is_done(&self) -> (done: bool)
        ensures
            done == self@.done(),
    {
        self.farewell.is_some()
    }

    /// What the Device told its peers when it disconnected, once it has.
    pub fn farewell(&self) -> (farewell: Option<Message>)
        ensures
            farewell == self@.farewell,
    {
        self.farewell
    }

    /// Link with another Device with the provided LinkMode. LinkModes
    /// are additive, so you can 'upgrade' a link this way.
    ///
    /// With a mode that monitors, `other` is to notify us; with a mode that
    /// notifies, we are to notify `other`. This is static-style linking: it
    /// edits both rosters directly. Do not link to a Device this way after
    /// linking to it through a Line. The two Devices must differ.
    pub fn link(&mut self, other: &mut Device, mode: LinkMode)
        requires
            old(self)@.id != old(other)@.id,
        ensures
            (final(self)@, final(other)@) == linked(old(self)@, old(other)@, mode),
            old(self)@.sound() ==> final(self)@.sound(),
            old(other)@.sound() ==> final(other)@.sound(),
    {
        if mode.monitor() {
            let line = self.line();
            other.out.attach(line);
        }
        if mode.notify() {
            let line = other.line();
            self.out.attach(line);
        }
    }

    /// Unlink from another Device with the provided LinkMode. LinkModes
    /// are subtractive, so you can 'downgrade' a link this way.
    ///
    /// With a mode that monitors, `other` is no longer to notify us; with a
    /// mode that notifies, we are no longer to notify `other`. Unlinking what
    /// is not linked changes nobody's recipients. The two Devices must differ.
    pub fn unlink(&mut self, other: &mut Device, mode: LinkMode)
        requires
            old(self)@.id != old(other)@.id,
        ensures
            (final(self)@, final(other)@) == unlinked(old(self)@, old(other)@, mode),
            old(self)@.sound() ==> final(self)@.sound(),
            old(other)@.sound() ==> final(other)@.sound(),
    {
        if mode.monitor() {
            other.out.detach(self.id);
        }
        if mode.notify() {
            self.out.detach(other.id);
        }
    }

    /// Link with a line. What `Line::link_edits` decides for the other side
    /// goes to the edit queue of the Device behind `other`: with a mode that
    /// monitors, it is asked to notify us, and if it has disconnected the call
    /// fails with `LinkDown` and changes nothing. What is decided for our side
    /// then joins our roster: with a mode that notifies, `other`. The line
    /// must lead to another Device.
    pub fn link_line(&mut self, other: Line, mode: LinkMode) -> (outcome: Result<(), LinkError>)
        requires
            old(self)@.id != other.target(),
        ensures
            !mode.monitors() ==> outcome is Ok,
            outcome is Err ==> outcome == Err::<(), LinkError>(LinkError::LinkDown),
            final(self)@ == old(self)@.attaching(other, outcome is Ok && mode.notifies()),
            old(self)@.sound() ==> final(self)@.sound(),
    {
        let (theirs, ours) = self.line().link_edits(&other, mode);
        if let Some(line) = theirs {
            match other.plugboard.plug(line, LinkError::LinkDown) {
                Ok(()) => {},
                Err(e) => {
                    return Err(e);
                },
            }
        }
        if let Some(line) = ours {
            self.out.attach(line);
        }
        Ok(())
    }

    /// Unlink with a line. What `plan_unlink` decides for the other side goes
    /// to the edit queue of the Device behind `other`: with a mode that
    /// monitors, it is asked no longer to notify us, and if it has
    /// disconnected there is nothing to undo. What is decided for our side
    /// leaves our roster: with a mode that notifies, `other`. The line must
    /// lead to another Device.
    pub fn unlink_line(&mut self, other: &Line, mode: LinkMode)
        requires
            old(self)@.id != other.target(),
        ensures
            final(self)@ == old(self)@.detaching(other.target(), mode.notifies()),
            old(self)@.sound() ==> final(self)@.sound(),
    {
        let (theirs, ours) = plan_unlink(self.id, other.device_id(), mode);
        if let Some(did) = theirs {
            let _ = other.plugboard.unplug(did, LinkError::LinkDown);
        }
        if let Some(did) = ours {
            self.out.detach(did);
        }
    }

    /// Attempts to get the next message. Does not wait for one to arrive.
    pub fn receive(&self) -> Option<Message> {
        self.plugboard.pop_message().message()
    }

    /// Polls the stream of messages once. A stream that has ended stays
    /// ended. Otherwise a waiting message is handed out; if none waits, the
    /// waker is registered and the queue is tried once more, so that a
    /// message that came in between is not slept over; a closed queue ends
    /// the stream.
    pub fn poll_message(&mut self, waker: &Waker) -> (polled: Polled)
        ensures
            old(self)@.ended ==> polled == Polled::Ready(None),
            final(self)@ == (DeviceState {
                ended: old(self)@.ended || polled == Polled::Ready(None),
                ..old(self)@
            }),
            old(self)@.sound() ==> final(self)@.sound(),
    {
        if self.ended {
            return Polled::Ready(None);
        }
        let first = self.plugboard.pop_message();
        let settled = match first {
            Popped::Empty => {
                self.plugboard.register(waker);
                self.plugboard.pop_message()
            },
            _ => first,
        };
        let polled = Polled::of(settled);
        if let Popped::Closed = settled {
            self.ended = true;
        }
        polled
    }

    /// Prepares the terminal broadcast with `fault`, given the edits `ops`
    /// that were still pending: they are applied to the roster, oldest first,
    /// the roster is then used up, and the farewell goes on record. What comes
    /// back is the farewell and the Lines it is for, in roster order. The
    /// Device must not have disconnected before.
    pub fn prepare_farewell(&mut self, ops: Vec<LineOp>, fault: Option<Fault>) -> (broadcast: Broadcast)
        requires
            !old(self)@.done(),
        ensures
            (broadcast.message, broadcast.lines@) == old(self)@.last_words(ops@, fault),
            final(self)@ == old(self)@.disconnected(fault),
            old(self)@.sound() ==> final(self)@.sound(),
    {
        self.out.apply_all(ops);
        let slots = self.out.drain();
        let lines = lines_of(slots);
        let message = Message::Disconnected(self.id, fault);
        self.farewell = Some(message);
        self.ended = true;
        Broadcast { message, lines }
    }

    /// Performs the terminal broadcast with `fault`: closes the plugboard, so
    /// that no more subscriptions and messages are taken; applies the edits
    /// that are still pending; and tells every Device on the roster that this
    /// one has disconnected. The Device must not have disconnected before.
    pub fn terminate(&mut self, fault: Option<Fault>)
        requires
            !old(self)@.done(),
        ensures
            final(self)@ == old(self)@.disconnected(fault),
            old(self)@.sound() ==> final(self)@.sound(),
    {
        self.plugboard.close();
        let ops = self.plugboard.drain_ops();
        let broadcast = self.prepare_farewell(ops, fault);
        broadcast.deliver();
    }

    /// Disconnects with `fault` unless the Device has disconnected before:
    /// the terminal broadcast is never repeated.
    pub fn end(&mut self, fault: Option<Fault>)
        ensures
            final(self)@ == old(self)@.ending(fault),
            final(self)@.done(),
            old(self)@.sound() ==> final(self)@.sound(),
    {
        if self.farewell.is_none() {
            self.terminate(fault);
        }
    }

    /// Lets go of the Device: if it has not disconnected yet, it does so now,
    /// with `Fault::Drop`. This is what dropping a Device does.
    pub fn release(&mut self)
        ensures
            final(self)@ == old(self)@.released(),
            final(self)@.done(),
            old(self)@.sound() ==> final(self)@.sound(),
    {
        self.end(Some(Fault::Drop));
    }

    /// Notify our peers we're disconnecting. A Device that has disconnected
    /// already stays silent.
    pub fn disconnect(self, fault: Option<Fault>) {
        let mut device = self;
        device.end(fault);
    }

    /// Settles one round of supervision that leaves the Device to its owner
    /// when the computation succeeds; `watched` is what watching brought.
    ///
    /// * Success is handed on; the Device stays as it is, and nobody is told.
    /// * An error of the computation, a panic, the fault of a peer and a
    ///   request to shut down crash the Device: it disconnects, telling its
    ///   peers the fault that the crash announces.
    /// * The orderly disconnect of a peer takes the peer off the roster, or,
    ///   if it was not listed there, off the pending edits; watching goes on.
    pub fn part_settle<T, C>(&mut self, watched: Result<Watched<Result<T, C>>, Crash<C>>) -> (verdict:
        Verdict<T, C>)
        ensures
            verdict == Verdict::of(watched),
            final(self)@ == old(self)@.part_settled(watched),
            old(self)@.sound() ==> final(self)@.sound(),
    {
        match watched {
            Ok(Watched::Completed(Ok(value))) => Verdict::Done(value),
            Ok(Watched::Completed(Err(error))) => {
                self.end(Some(Fault::Error));
                Verdict::Failed(Crash::Error(error))
            },
            Ok(Watched::Messaged(Message::Disconnected(sender, Some(fault)))) => {
                self.end(Some(Fault::Cascade(sender)));
                Verdict::Failed(Crash::Cascade(sender, fault))
            },
            Ok(Watched::Messaged(Message::Disconnected(sender, None))) => {
                if let Some(pending) = self.out.detach_or_defer(sender) {
                    let _ = self.plugboard.unplug(pending, LinkError::LinkDown);
                }
                Verdict::Again
            },
            Ok(Watched::Messaged(Message::Shutdown(origin))) => {
                self.end(None);
                Verdict::Failed(Crash::PowerOff(origin))
            },
            Err(crash) => {
                self.end(crash.fault());
                Verdict::Failed(crash)
            },
        }
    }

    /// Settles one round of supervision that uses the Device up: as
    /// `part_settle`, but success disconnects the Device in an orderly way.
    pub fn settle<T, C>(&mut self, watched: Result<Watched<Result<T, C>>, Crash<C>>) -> (verdict:
        Verdict<T, C>)
        ensures
            verdict == Verdict::of(watched),
            final(self)@ == old(self)@.settled(watched),
            old(self)@.sound() ==> final(self)@.sound(),
    {
        let verdict = self.part_settle(watched);
        if let Verdict::Done(_) = verdict {
            self.end(None);
        }
        verdict
    }
}

impl Default for Device {
    /// A new Device, as `Device::new` makes it.
    fn default() -> (device: Device)
        ensures
            device@.sound(),
            device@.roster == Seq::<Slot>::empty(),
            device@.farewell is None,
            !device@.ended,
    {
        Device::new()
    }
}

impl Drop for Device {
    /// `maybe_unwind::maybe_unwind` around `release`: letting go of a Device
    /// does what `release` does, and a destructor never unwinds. Should
    /// `release` ever panic, the panic ends here: it is caught and dropped,
    /// and the Device is gone all the same.
    #[verifier::external_body]
    fn drop(&mut self)
        opens_invariants none
        no_unwind
    {
        let _ = maybe_unwind::maybe_unwind(core::panic::AssertUnwindSafe(|| self.release()));
    }
}

/// What one poll of the stream of messages came to.
#[derive(Clone, Copy, Debug, PartialEq, Eq, Structural)]
pub enum Polled {
    /// The next message, or `None` when the stream has ended.
    Ready(Option<Message>),
    /// No message yet; the waker will be woken when one comes.
    Pending,
}

impl Polled {
    /// What an attempt to take a message means for the stream.
    pub open spec fn from_popped(popped: Popped) -> Polled {
        match popped {
            Popped::Message(message) => Polled::Ready(Some(message)),
            Popped::Empty => Polled::Pending,
            Popped::Closed => Polled::Ready(None),
        }
    }

    /// What an attempt to take a message means for the stream: a message is
    /// handed out, an empty queue means waiting, a closed one the end.
    pub fn of(popped: Popped) -> (polled: Polled)
        ensures
            polled == Self::from_popped(popped),
    {
        match popped {
            Popped::Message(message) => Polled::Ready(Some(message)),
            Popped::Empty => Polled::Pending,
            Popped::Closed => Polled::Ready(None),
        }
    }
}

/// The Lines of `slots`, in slot order.
pub fn lines_of(slots: Vec<Slot>) -> (lines: Vec<Line>)
    ensures
        lines@ == recipients(slots@),
{
    let ghost all = slots@;
    let mut lines: Vec<Line> = Vec::new();
    for slot in taken: slots
        invariant
            taken.seq() == all,
            lines@ == recipients(all.take(taken.index() as int)),
    {
        proof {
            let done = taken.index() as int;
            assert(all.take(done + 1).drop_last() =~= all.take(done));
            assert(all.take(done + 1).last() == slot);
        }
        match slot.1 {
            Some(line) => {
                lines.push(line);
            },
            None => {},
        }
    }
    proof {
        assert(all.take(all.len() as int) =~= all);
    }
    lines
}

} // verus!

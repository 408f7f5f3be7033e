//! Lines: clonable handles to a Device.
use vstd::prelude::*;
use std::sync::Arc;
use crate::{LinkError, LinkMode, Message};
use crate::device_id::{hex_digits, push_hex, string_of, DeviceID};
use crate::plugboard::Plugboard;

verus! {

/// What linking asks for, by mode: the Line that the other side is to attach
/// (ours, if the mode monitors), and the Line that our side is to attach
/// (theirs, if the mode notifies).
pub open spec fn link_plan(me: Line, other: Line, mode: LinkMode) -> (Option<Line>, Option<Line>) {
    (
        if mode.monitors() {
            Some(me)
        } else {
            None
        },
        if mode.notifies() {
            Some(other)
        } else {
            None
        },
    )
}

/// What unlinking asks for, by mode: the Device that the other side is to
/// detach (ours, if the mode monitors), and the Device that our side is to
/// detach (theirs, if the mode notifies). Nothing is asked of anybody when
/// both sides are the same Device.
pub open spec fn unlink_plan(me: DeviceID, other: DeviceID, mode: LinkMode) -> (
    Option<DeviceID>,
    Option<DeviceID>,
) {
    if me == other {
        (None, None)
    } else {
        (
            if mode.monitors() {
                Some(me)
            } else {
                None
            },
            if mode.notifies() {
                Some(other)
            } else {
                None
            },
        )
    }
}

/// Decides what unlinking `me` from `other` asks for: first what the other
/// side is to detach, then what our side is to detach.
pub fn plan_unlink(me: DeviceID, other: DeviceID, mode: LinkMode) -> (edits: (
    Option<DeviceID>,
    Option<DeviceID>,
))
    ensures
        edits == unlink_plan(me, other, mode),
{
    if me == other {
        (None, None)
    } else {
        let theirs = if mode.monitor() {
            Some(me)
        } else {
            None
        };
        let ours = if mode.notify() {
            Some(other)
        } else {
            None
        };
        (theirs, ours)
    }
}

/// A reference to a `Device` that allows us to link with it.
///
/// A Line shares the plugboard of its Device and never owns the Device: it
/// outlives it, and its operations then fail.
#[derive(Debug)]
pub struct Line {
    pub(crate) id: DeviceID,
    pub(crate) plugboard: Arc<Plugboard>,
}

impl Line {
    /// The Device that the line leads to.
    pub closed spec fn target(self) -> DeviceID {
        self.id
    }

    /// A line leads to the Device whose identifier it carries.
    pub(crate) proof fn lemma_target(self)
        ensures
            self.target() == self.id,
    {
    }

    /// Get the ID of the Device this line is connected to.
    pub fn device_id(&self) -> (did: DeviceID)
        ensures
            did == self.target(),
    {
        self.id
    }

    /// Send a message to the Device. On failure (if the Device has
    /// disconnected) the message comes back unchanged.
    pub fn send(self, message: Message) -> (outcome: Result<(), Message>)
        ensures
            outcome is Err ==> outcome == Err::<(), Message>(message),
    {
        self.plugboard.send(message)
    }

    /// How a line is written: the number of its Device in hex between
    /// `Line<` and `>`.
    pub open spec fn rendered(self) -> Seq<char> {
        seq!['L', 'i', 'n', 'e', '<'] + hex_digits(self.target().value() as nat) + seq!['>']
    }

    /// Writes the line out, as in `Line<7f00>`.
    pub fn to_string(&self) -> (text: String)
        ensures
            text@ == self.rendered(),
    {
        let mut chars: Vec<char> = Vec::new();
        chars.push('L');
        chars.push('i');
        chars.push('n');
        chars.push('e');
        chars.push('<');
        assert(chars@ =~= seq!['L', 'i', 'n', 'e', '<']);
        push_hex(self.id.into_inner(), &mut chars);
        chars.push('>');
        string_of(chars)
    }

    /// Decides what linking this line with `other` asks for: first the Line
    /// that the other side is to attach, then the Line that our side is to
    /// attach.
    pub fn link_edits(&self, other: &Line, mode: LinkMode) -> (edits: (Option<Line>, Option<Line>))
        ensures
            edits == link_plan(*self, *other, mode),
    {
        let theirs = if mode.monitor() {
            Some(self.clone())
        } else {
            None
        };
        let ours = if mode.notify() {
            Some(other.clone())
        } else {
            None
        };
        (theirs, ours)
    }

    /// Decides what unlinking this line from `other` asks for: first the
    /// Device that the other side is to detach, then the Device that our side
    /// is to detach; nothing when both lines lead to the same Device.
    pub fn unlink_edits(&self, other: &Line, mode: LinkMode) -> (edits: (
        Option<DeviceID>,
        Option<DeviceID>,
    ))
        ensures
            edits == unlink_plan(self.target(), other.target(), mode),
    {
        plan_unlink(self.id, other.id, mode)
    }

    /// Links the Device behind this line with the Device behind `other`,
    /// through the edit queues of both: what `link_edits` decides for the
    /// other side goes to the other side's queue, then what it decides for
    /// ours goes to ours. The first refusal ends the call: `LinkDown` if the
    /// other Device has disconnected, `DeviceDown` if ours has.
    ///
    /// The two lines must lead to different Devices.
    pub fn link_line(&self, other: Line, mode: LinkMode) -> (outcome: Result<(), LinkError>)
        requires
            self.target() != other.target(),
        ensures
            outcome is Err ==> (outcome == Err::<(), LinkError>(LinkError::LinkDown)
                && mode.monitors()) || (outcome == Err::<(), LinkError>(LinkError::DeviceDown)
                && mode.notifies()),
    {
        let (theirs, ours) = self.link_edits(&other, mode);
        if let Some(line) = theirs {
            match other.plugboard.plug(line, LinkError::LinkDown) {
                Ok(()) => {},
                Err(e) => {
                    return Err(e);
                },
            }
        }
        if let Some(line) = ours {
            return self.plugboard.plug(line, LinkError::DeviceDown);
        }
        Ok(())
    }

    /// Undoes `link_line` as far as the queues still take edits: what
    /// `unlink_edits` decides for the other side goes to the other side's
    /// queue, and what it decides for ours goes to ours; refusals are ignored.
    /// Nothing is asked when both lines lead to the same Device.
    pub fn unlink_line(&self, other: &Line, mode: LinkMode) {
        let (theirs, ours) = self.unlink_edits(other, mode);
        if let Some(did) = theirs {
            let _ = other.plugboard.unplug(did, LinkError::LinkDown);
        }
        if let Some(did) = ours {
            let _ = self.plugboard.unplug(did, LinkError::DeviceDown);
        }
    }
}

impl Clone for Line {
    /// Another handle of the same Device.
    fn clone(&self) -> (line: Line)
        ensures
            line == *self,
    {
        Line { id: self.id, plugboard: Plugboard::share(&self.plugboard) }
    }
}

impl PartialEq for Line {
    /// Two lines are equal when they lead to the same Device.
    fn eq(&self, other: &Line) -> (same: bool) {
        self.id == other.id
    }
}

impl Eq for Line {

}

impl vstd::std_specs::cmp::PartialEqSpecImpl for Line {
    open spec fn obeys_eq_spec() -> bool {
        true
    }

    open spec fn eq_spec(&self, other: &Line) -> bool {
        self.target() == other.target()
    }
}

} // verus!

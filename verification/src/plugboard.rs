//! The shared mailbox of a Device: a queue of pending subscription edits and
//! a queue of inbound messages.
//!
//! A Plugboard is owned jointly by its Device and by every Line to it. Any
//! number of producers may push to either queue at any time; only the Device
//! pops. Because other owners act between any two calls, no contract here
//! speaks of what the queues hold: each states what is true of every outcome.
use vstd::prelude::*;
use concurrent_queue::ConcurrentQueue;
use concurrent_queue::PopError;
use waker_queue::WakerQueue;
use std::sync::Arc;
use std::task::Waker;
use crate::{LinkError, Message};
use crate::device_id::DeviceID;
use crate::line::Line;
use crate::linemap::LineOp;

verus! {

/// `std::task::Waker`, carried through to the message queue untouched.
#[verifier::external_type_specification]
#[verifier::external_body]
pub struct ExWaker(Waker);

/// What one attempt to take a message found.
#[derive(Clone, Copy, Debug, PartialEq, Eq, Structural)]
pub enum Popped {
    /// A message was waiting.
    Message(Message),
    /// Nothing is waiting, but more may come.
    Empty,
    /// Nothing is waiting and the queue is closed: nothing will come.
    Closed,
}

impl Popped {
    /// The message, if one was found.
    pub open spec fn found(self) -> Option<Message> {
        match self {
            Popped::Message(message) => Some(message),
            Popped::Empty => None,
            Popped::Closed => None,
        }
    }

    /// The message, if one was found.
    pub fn message(self) -> (message: Option<Message>)
        ensures
            message == self.found(),
    {
        match self {
            Popped::Message(message) => Some(message),
            Popped::Empty => None,
            Popped::Closed => None,
        }
    }
}

/// The two queues of one Device. Both are collections of outside crates that
/// are shared between threads. The edit queue holds Lines, which hold
/// plugboards: a type that the verifier refuses to unfold, so the struct is
/// opaque to it and is only touched through the methods below.
#[derive(Debug)]
#[verifier::external_body]
pub struct Plugboard {
    line_ops: ConcurrentQueue<LineOp>,
    messages: WakerQueue<Message>,
}

impl Plugboard {
    /// `ConcurrentQueue::unbounded` and `WakerQueue::unbounded`: a plugboard
    /// with two fresh queues. Nothing is claimed of the result.
    #[verifier::external_body]
    pub fn new() -> Plugboard {
        Plugboard { line_ops: ConcurrentQueue::unbounded(), messages: WakerQueue::unbounded() }
    }

    /// `ConcurrentQueue::push` on the edit queue. A push that is refused hands
    /// back the very edit it was given; nothing is claimed of when it is
    /// refused.
    #[verifier::external_body]
    pub(crate) fn push_op(&self, op: LineOp) -> (pushed: Result<(), LineOp>)
        ensures
            pushed matches Err(back) ==> back == op,
    {
        self.line_ops.push(op).map_err(|e| e.into_inner())
    }

    /// `ConcurrentQueue::pop` on the edit queue: the oldest pending edit, or
    /// `None` when there is none. Nothing is claimed of which edit comes.
    #[verifier::external_body]
    pub(crate) fn pop_op(&self) -> Option<LineOp> {
        self.line_ops.pop().ok()
    }

    /// `ConcurrentQueue::len` on the edit queue: the number of pending edits
    /// at the moment of the call. Nothing is claimed of the number.
    #[verifier::external_body]
    pub(crate) fn count_ops(&self) -> usize {
        self.line_ops.len()
    }

    /// `ConcurrentQueue::close` on the edit queue.
    #[verifier::external_body]
    pub(crate) fn close_ops(&self) {
        self.line_ops.close();
    }

    /// `WakerQueue::close` on the message queue.
    #[verifier::external_body]
    pub(crate) fn close_messages(&self) {
        self.messages.close();
    }

    /// `WakerQueue::try_push_wake` on the message queue, waking the consumer
    /// on success. A push that is refused hands back the very message it was
    /// given; nothing is claimed of when it is refused.
    #[verifier::external_body]
    pub(crate) fn push_message(&self, message: Message) -> (pushed: Result<(), Message>)
        ensures
            pushed matches Err(back) ==> back == message,
    {
        self.messages.try_push_wake(message, true).map_err(|e| e.into_inner())
    }

    /// `WakerQueue::try_pop` on the message queue, with the outside error
    /// told apart variant by variant. Nothing is claimed of which outcome
    /// comes.
    #[verifier::external_body]
    pub(crate) fn pop_message(&self) -> Popped {
        match self.messages.try_pop() {
            Ok(message) => Popped::Message(message),
            Err(PopError::Empty) => Popped::Empty,
            Err(PopError::Closed) => Popped::Closed,
        }
    }

    /// `WakerQueue::register` on the message queue: the waker to wake at the
    /// next successful push.
    #[verifier::external_body]
    pub(crate) fn register(&self, waker: &Waker) {
        self.messages.register(waker);
    }

    /// `Arc::as_ptr`, as a number: where the shared plugboard lives. Nothing
    /// is claimed of the number.
    #[verifier::external_body]
    pub(crate) fn address(shared: &Arc<Plugboard>) -> usize {
        Arc::as_ptr(shared) as usize
    }

    /// `Arc::clone`: one more owner of the same plugboard.
    #[verifier::external_body]
    pub(crate) fn share(shared: &Arc<Plugboard>) -> (again: Arc<Plugboard>)
        ensures
            again == *shared,
    {
        Arc::clone(shared)
    }

    /// What refusing a push means to the caller: `Ok` stays `Ok`, and a
    /// refusal becomes `error`, whatever was handed back.
    pub fn refused_as<T>(pushed: Result<(), T>, error: LinkError) -> (outcome: Result<(), LinkError>)
        ensures
            outcome == (if pushed is Ok { Ok::<(), LinkError>(()) } else { Err(error) }),
    {
        match pushed {
            Ok(()) => Ok(()),
            Err(_) => Err(error),
        }
    }

    /// Record that we wish to notify the Device behind `line` when we
    /// disconnect. The only failure is `error`, given when the edit queue
    /// refuses the edit because it is closed.
    pub fn plug(&self, line: Line, error: LinkError) -> (outcome: Result<(), LinkError>)
        ensures
            outcome is Err ==> outcome == Err::<(), LinkError>(error),
    {
        Self::refused_as(self.push_op(LineOp::Attach(line)), error)
    }

    /// Record that we no longer wish to notify the Device `did` when we
    /// disconnect. The only failure is `error`, given when the edit queue
    /// refuses the edit because it is closed.
    pub fn unplug(&self, did: DeviceID, error: LinkError) -> (outcome: Result<(), LinkError>)
        ensures
            outcome is Err ==> outcome == Err::<(), LinkError>(error),
    {
        Self::refused_as(self.push_op(LineOp::Detach(did)), error)
    }

    /// Send a message down the line and wake the Device. On failure the
    /// message comes back unchanged.
    pub fn send(&self, message: Message) -> (outcome: Result<(), Message>)
        ensures
            outcome is Err ==> outcome == Err::<(), Message>(message),
    {
        self.push_message(message)
    }

    /// Stop taking requests: closes both queues. Closing twice is harmless.
    pub fn close(&self) {
        self.close_ops();
        self.close_messages();
    }

    /// Takes the edits that are pending at the moment of the call, oldest
    /// first, stopping early if the queue runs dry.
    pub fn drain_ops(&self) -> (ops: Vec<LineOp>) {
        let pending: usize = self.count_ops();
        let mut ops: Vec<LineOp> = Vec::new();
        let mut taken: usize = 0;
        while taken < pending
            invariant
                taken <= pending,
            decreases pending - taken,
        {
            match self.pop_op() {
                Some(op) => {
                    ops.push(op);
                    taken = taken + 1;
                },
                None => {
                    return ops;
                },
            }
        }
        ops
    }
}

} // verus!

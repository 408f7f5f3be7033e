//! What watching a computation can bring.
use vstd::prelude::*;
use maybe_unwind::Unwind;
use crate::Message;
use crate::crash::Crash;

verus! {

/// A result from watching a computation.
#[derive(Debug, PartialEq, Eq)]
pub enum Watched<T> {
    /// The provided Future completed.
    Completed(T),
    /// A message was received.
    Messaged(Message),
}

impl<T> Watched<T> {
    /// True if the future completed.
    pub fn is_completed(&self) -> (yes: bool)
        ensures
            yes == (*self is Completed),
    {
        matches!(self, Watched::Completed(_))
    }

    /// True if we received a message.
    pub fn is_messaged(&self) -> (yes: bool)
        ensures
            yes == (*self is Messaged),
    {
        matches!(self, Watched::Messaged(_))
    }

    /// Take the completed result; there must be one.
    pub fn unwrap_completed(self) -> (value: T)
        requires
            self is Completed,
        ensures
            self == Watched::Completed(value),
    {
        match self {
            Watched::Completed(value) => value,
            Watched::Messaged(_) => unreached(),
        }
    }

    /// Take the received message; there must be one.
    pub fn unwrap_messaged(self) -> (message: Message)
        requires
            self is Messaged,
        ensures
            self == Watched::<T>::Messaged(message),
    {
        match self {
            Watched::Messaged(message) => message,
            Watched::Completed(_) => unreached(),
        }
    }

    /// What one round of watching yields, given what each side had ready: a
    /// waiting message wins over a finished computation; a computation that
    /// panicked is a crash; with nothing ready there is nothing to yield yet.
    pub open spec fn raced<C>(
        message: Option<Message>,
        finished: Option<Result<T, Unwind>>,
    ) -> Option<Result<Watched<T>, Crash<C>>> {
        match message {
            Some(m) => Some(Ok(Watched::Messaged(m))),
            None => match finished {
                Some(Ok(value)) => Some(Ok(Watched::Completed(value))),
                Some(Err(unwind)) => Some(Err(Crash::Panic(unwind))),
                None => None,
            },
        }
    }

    /// Decides one round of watching: `message` is what the Device had
    /// waiting, `finished` what the computation came to, if it is done.
    /// Messages win ties.
    pub fn race<C>(message: Option<Message>, finished: Option<Result<T, Unwind>>) -> (outcome:
        Option<Result<Watched<T>, Crash<C>>>)
        ensures
            outcome == Self::raced::<C>(message, finished),
    {
        match message {
            Some(m) => Some(Ok(Watched::Messaged(m))),
            None => match finished {
                Some(Ok(value)) => Some(Ok(Watched::Completed(value))),
                Some(Err(unwind)) => Some(Err(Crash::Panic(unwind))),
                None => None,
            },
        }
    }
}

} // verus!

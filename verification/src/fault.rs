//! The reasons for which a Device may disconnect abnormally.
use vstd::prelude::*;
use crate::device_id::DeviceID;

verus! {

/// The device has disconnected and it wasn't for a good reason.
#[derive(Clone, Copy, Debug, PartialEq, Eq, Structural, Hash)]
pub enum Fault {
    /// Wasn't scheduled on an executor.
    Drop,
    /// Returned an Err or panicked or generally something bad.
    Error,
    /// A device we depended on faulted.
    Cascade(DeviceID),
}

impl Fault {
    /// Did the Device drop without being scheduled?
    pub fn is_drop(&self) -> (yes: bool)
        ensures
            yes == (*self is Drop),
    {
        matches!(self, Fault::Drop)
    }

    /// Did we return an Err or panic or something awful?
    pub fn is_error(&self) -> (yes: bool)
        ensures
            yes == (*self is Error),
    {
        matches!(self, Fault::Error)
    }

    /// Are we a cascade fault?
    pub fn is_cascade(&self) -> (yes: bool)
        ensures
            yes == (*self is Cascade),
    {
        matches!(self, Fault::Cascade(_))
    }
}

} // verus!

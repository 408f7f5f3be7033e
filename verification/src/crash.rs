//! How a supervised computation can end badly.
use vstd::prelude::*;
use maybe_unwind::Unwind;
use crate::device_id::DeviceID;
use crate::fault::Fault;

verus! {

/// `maybe_unwind::Unwind`: what was captured of a panic. It is carried
/// through untouched.
#[verifier::external_type_specification]
#[verifier::external_body]
pub struct ExUnwind(Unwind);

/// Something went wrong with a Device.
#[derive(Debug)]
pub enum Crash<Error> {
    /// We were asked to shut down.
    PowerOff(DeviceID),
    /// The Future we were executing panicked.
    Panic(Unwind),
    /// The Future we were executing returned an Err.
    Error(Error),
    /// A device we depended upon faulted.
    Cascade(DeviceID, Fault),
}

impl<Error> Crash<Error> {
    /// What a Device that ends with this crash tells its peers: a shutdown on
    /// request is orderly, a failure or a panic of the computation is an
    /// error, and the fault of a peer is passed on under the peer's name.
    pub open spec fn announced(self) -> Option<Fault> {
        match self {
            Crash::PowerOff(_) => None,
            Crash::Panic(_) => Some(Fault::Error),
            Crash::Error(_) => Some(Fault::Error),
            Crash::Cascade(did, _) => Some(Fault::Cascade(did)),
        }
    }

    /// Did the future unwind panic?
    pub fn is_panic(&self) -> (yes: bool)
        ensures
            yes == (*self is Panic),
    {
        matches!(self, Crash::Panic(_))
    }

    /// Did the future return Err?
    pub fn is_error(&self) -> (yes: bool)
        ensures
            yes == (*self is Error),
    {
        matches!(self, Crash::Error(_))
    }

    /// Did a Device we depend on fault?
    pub fn is_cascade(&self) -> (yes: bool)
        ensures
            yes == (*self is Cascade),
    {
        matches!(self, Crash::Cascade(_, _))
    }

    /// The fault to broadcast when a Device ends with this crash, or `None`
    /// for an orderly end.
    pub fn fault(&self) -> (fault: Option<Fault>)
        ensures
            fault == self.announced(),
    {
        match self {
            Crash::PowerOff(_) => None,
            Crash::Panic(_) => Some(Fault::Error),
            Crash::Error(_) => Some(Fault::Error),
            Crash::Cascade(did, _) => Some(Fault::Cascade(*did)),
        }
    }
}

} // verus!

//! A supervision backplane for asynchronous computations.
//!
//! Devices observe one another's termination through Lines, propagate faults
//! and coordinate orderly shutdown.
use vstd::prelude::*;

pub mod crash;
pub mod device;
pub mod device_id;
pub mod fault;
pub mod line;
pub mod linemap;
pub mod plugboard;
pub mod prelude;
pub mod watched;

pub use crash::Crash;
pub use device::Device;
pub use device_id::DeviceID;
pub use fault::Fault;
pub use line::Line;
pub use watched::Watched;

verus! {

/// There was a problem Linking
#[derive(Clone, Copy, Debug, PartialEq, Eq, Structural)]
pub enum LinkError {
    /// We can't because we already disconnected.
    DeviceDown,
    /// We can't because the other Device already disconnected.
    LinkDown,
}

/// How deeply should we link?
#[derive(Clone, Copy, Debug, PartialEq, Eq, Structural)]
pub enum LinkMode {
    /// Receive a notification when the other Device disconnects.
    Monitor,
    /// Send a notification when we disconnect.
    Notify,
    /// Monitor + Notify.
    Peer,
}

impl LinkMode {
    /// The direction "the other side tells us": set in Monitor and Peer.
    pub open spec fn monitors(self) -> bool {
        self is Monitor || self is Peer
    }

    /// The direction "we tell the other side": set in Notify and Peer.
    pub open spec fn notifies(self) -> bool {
        self is Notify || self is Peer
    }

    /// true if we should be notified when the other Device disconnects.
    pub fn monitor(&self) -> (yes: bool)
        ensures
            yes == self.monitors(),
    {
        match self {
            LinkMode::Monitor => true,
            LinkMode::Notify => false,
            LinkMode::Peer => true,
        }
    }

    /// true if we should notify the other Device when we disconnect.
    pub fn notify(&self) -> (yes: bool)
        ensures
            yes == self.notifies(),
    {
        match self {
            LinkMode::Monitor => false,
            LinkMode::Notify => true,
            LinkMode::Peer => true,
        }
    }

    /// true if both sides will notify the other on disconnect.
    pub fn peer(&self) -> (yes: bool)
        ensures
            yes == (self.monitors() && self.notifies()),
            yes == (*self is Peer),
    {
        match self {
            LinkMode::Monitor => false,
            LinkMode::Notify => false,
            LinkMode::Peer => true,
        }
    }
}

/// A message exchanged between devices.
#[derive(Clone, Copy, Debug, PartialEq, Eq, Structural)]
pub enum Message {
    /// A Device we are monitoring has disconnected.
    Disconnected(DeviceID, Option<Fault>),
    /// Request to stop running.
    Shutdown(DeviceID),
}

impl Message {
    /// The Device that the message comes from.
    pub open spec fn origin(self) -> DeviceID {
        match self {
            Message::Disconnected(did, _) => did,
            Message::Shutdown(did) => did,
        }
    }

    /// Returns the DeviceID of the sender.
    pub fn sender(&self) -> (did: DeviceID)
        ensures
            did == self.origin(),
    {
        match self {
            Message::Disconnected(did, _) => *did,
            Message::Shutdown(did) => *did,
        }
    }

    /// Unwraps the Disconnect notification; the message must be one.
    pub fn unwrap_disconnected(&self) -> (pair: (DeviceID, Option<Fault>))
        requires
            *self is Disconnected,
        ensures
            *self == Message::Disconnected(pair.0, pair.1),
    {
        match self {
            Message::Disconnected(did, fault) => (*did, *fault),
            Message::Shutdown(_) => unreached(),
        }
    }

    /// Unwraps the Shutdown request; the message must be one.
    pub fn unwrap_shutdown(&self) -> (did: DeviceID)
        requires
            *self is Shutdown,
        ensures
            *self == Message::Shutdown(did),
    {
        match self {
            Message::Shutdown(did) => *did,
            Message::Disconnected(_, _) => unreached(),
        }
    }
}

} // verus!

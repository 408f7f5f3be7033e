//! Reexports of most things!
pub use crate::device::{Broadcast, Polled, Verdict};
pub use crate::LinkMode::{Monitor, Notify, Peer};
pub use crate::Message::{Disconnected, Shutdown};
pub use crate::Watched::{Completed, Messaged};
pub use crate::{Crash, Device, DeviceID, Fault, Line, LinkError, LinkMode, Message, Watched};

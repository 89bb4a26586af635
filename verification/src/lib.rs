//! The decision logic of the Hyper-V file-copy (fcopy) integration service
//! driver: how packets from the host are classified, when a request is handed
//! to the user-space daemon, how replies travel back to the host, and the
//! byte layouts of the messages involved. Every effect on the outside world
//! (VMBus, the user-space transport, timers, tasklets) is named as an action
//! that the caller performs; the library decides which action comes next.
use vstd::prelude::*;

pub mod wire;
pub mod fcopy;
pub mod message;
pub mod ring;
pub mod laws;

//! Management of the service on the system.

use vstd::prelude::*;

pub mod executor;
pub mod linux;
pub mod operation;
pub mod probe;
pub mod status;

pub use crate::session::Session;
pub use linux::{ControllerInterface, LinuxController};
pub use status::{ActiveState, BasicServiceStatus, InactiveState, ServiceState, ServiceStatus};

verus! {

/// The controller of this platform.
pub type Controller = LinuxController;

} // verus!

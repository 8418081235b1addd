//! The rules of event dispatch: what an interrupt puts on the event channel, and what
//! becomes of a dispatch whose event producers cannot be set up.

use crate::error::{OpError, OpErrorView};
use crate::event::{ServiceEvent, ServiceEventView};
use vstd::prelude::*;
use vstd::string::*;

verus! {

/// The two producers of events that a dispatch sets up before it hands control to the
/// service's main function.
#[derive(Debug, Clone, Copy, PartialEq, Eq, Structural)]
pub enum Producer {
    /// The monitor of the active login session.
    SessionMonitor,
    /// The handler of interrupt signals.
    InterruptHandler,
}

/// What is said of a producer that could not be set up.
pub open spec fn startup_failure_text(producer: Producer) -> Seq<char> {
    match producer {
        Producer::SessionMonitor => "Failed to run session monitor"@,
        Producer::InterruptHandler => "Failed to register Ctrl-C handler"@,
    }
}

/// The event that an interrupt signal puts on the channel: one `Stop`.
pub fn interrupt_event<T>() -> (event: ServiceEvent<T>)
    ensures
        event@ == ServiceEventView::<T>::Stop,
{
    ServiceEvent::Stop
}

/// Whether the dispatch may go on after the attempt to set up `producer`: it may where
/// the attempt succeeded; a failure, given by its cause, is fatal to the dispatch.
pub fn producer_started(producer: Producer, started: Result<(), String>) -> (r: Result<
    (),
    OpError,
>)
    ensures
        match started {
            Ok(_) => r is Ok,
            Err(cause) => r matches Err(e) && e@ == (OpErrorView::SubsystemError {
                message: startup_failure_text(producer) + ": "@ + cause@,
            }),
        },
{
    match started {
        Ok(_) => Ok(()),
        Err(cause) => {
            let mut message = match producer {
                Producer::SessionMonitor => String::from_str("Failed to run session monitor"),
                Producer::InterruptHandler => String::from_str(
                    "Failed to register Ctrl-C handler",
                ),
            };
            message.append(": ");
            message.append(cause.as_str());
            Err(OpError::SubsystemError { message })
        },
    }
}

} // verus!

//! Control and observation of a long-running background service under a service
//! manager.
//!
//! The library holds the rules and leaves the acting to its caller. It reads the
//! service manager's status text into a small set of states ([`controller::status`]),
//! judges the runs of the manager's control command ([`controller::executor`]), plans
//! the operations that create, delete, start and stop a service as steps for the
//! caller to carry out ([`controller::operation`], [`controller::linux`]), leads the
//! caller through the questions of a status query ([`controller::probe`]), and turns
//! changes of the active login session and interrupts into the events that the
//! service's main function receives ([`session`], [`dispatch`], [`event`]).
//!
//! The functions are verified against contracts over the sequences of characters and
//! the plain values that their arguments stand for; the two that hand bytes to the
//! standard library's UTF-8 decoders are trusted, and say so. None of them touches
//! the system.

pub mod controller;
pub mod dispatch;
pub mod error;
pub mod event;
pub mod session;
pub mod text;

pub use error::Error;
pub use event::ServiceEvent;

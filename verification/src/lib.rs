//! Verified core of a contactless-tag polling loop.
//!
//! The crate has two components. [`timer::TimerWrapper`] models a one-shot
//! hardware countdown timer together with the shared alarm flag that its
//! interrupt raises, and turns the asynchronous alarm into a synchronous
//! "wait until elapsed" primitive. [`driver::PollingDriver`] sequences the
//! protocol requests of a tag reader: a one-time startup phase followed by a
//! steady-state polling loop, classifying every response or failure.
//!
//! Hardware access itself (the timer peripheral, the serial bus, the tag
//! reader's wire protocol) lives outside this crate; the caller performs each
//! requested action and feeds the observed outcome back into these state
//! machines.

pub mod driver;
pub mod timer;

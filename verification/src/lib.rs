//! Orchestration engine for an unattended kiosk display.
//!
//! The library is the decision core of the system: a message-driven
//! controller that owns playlist and tab activation, a cancellable
//! auto-rotation scheduler, and a rate-limited screencast frame cache.
//! Everything here is plain state-machine logic, verified by Verus: the
//! controller consumes a command together with the store rows the command
//! needs, mutates its model of the browser session, and hands back a
//! response and the list of browser/store effects to perform.  The
//! unverified runtime around it performs the effects and feeds events
//! back in.

pub mod api;
pub mod config;
pub mod controller;
pub mod frames;
pub mod hass;
pub mod messages;
pub mod records;
pub mod strmap;

//! The core of a breakpoint-inspection dashboard: the store of received
//! breakpoints, the two list cursors over it, the inspection tree derived
//! from a breakpoint's payload, and the key-driven state machine that ties
//! them together.

pub mod config;
pub mod json;
pub mod server;
pub mod ui;

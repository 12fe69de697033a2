//! Core logic for a line-oriented TCP <-> process bridge.
//!
//! The library contains the pure, verified part of the service: decimal
//! rendering of port numbers, substitution of the `HOST` / `PORT` tokens in a
//! child command line, validation of command vectors, and the line-relay
//! session model with its error classification. All networking, process
//! spawning and threading lives outside the library and drives these
//! functions.

pub mod command;
pub mod numeral;
pub mod relay;
pub mod session;

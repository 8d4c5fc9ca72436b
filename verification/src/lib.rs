//! Start-up decisions of a desktop shell that shows a bundled web frontend
//! through a loopback HTTP server.
//!
//! The library computes the addresses, the script that points a window at
//! one of them and the plan of what a build sets up; the shell around it
//! talks to the window framework.

pub mod address;
pub mod decimal;
pub mod startup;

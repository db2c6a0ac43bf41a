//! Supervisor core for a small set of named external operations: a
//! privilege-escalating command planner, a bounded log ring buffer, a
//! per-component status table, and the controller that drives one
//! operation end to end.

pub mod clock;
pub mod config;
pub mod controller;
pub mod exec;
pub mod logbuf;
pub mod notify;
pub mod status;
pub mod strutil;

//! A plugin architecture for long-running iterative simulation loops.
//!
//! Independent observers ("plugins") periodically inspect the state of a
//! simulation and decide whether to log, checkpoint, or terminate it.  The
//! crate provides the [`action::Action`] lattice in which those decisions are
//! merged, the [`manager::Plugin`] capability interface, the adaptive
//! [`manager::PluginManager`] that decides on every simulation step whether
//! any plugin work is due, and two illustrative plugins: a progress
//! [`report::Report`] with an iteration limit, and an exponential
//! [`save_schedule::Save`] schedule.

pub mod action;
pub mod manager;
pub mod report;
pub mod save_schedule;
pub mod text;

//! Task piles: independent task collections that each behave as a stack or
//! a queue, and a registry that hands out pile ids and keeps one handle per
//! live pile.
//!
//! The library holds the state and the rules of each unit. Running a unit as
//! an isolated process, and passing messages to it, is left to the caller.
pub mod task;
pub mod pile;
pub mod registry;

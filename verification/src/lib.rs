//! A kanban-style task board: tasks move across an ordered sequence of named
//! lanes, and can be created, edited, viewed and removed.
//!
//! The crate holds the board's state machines and nothing that waits: each
//! controller takes a message, changes its state in memory at once, and
//! answers with the effect that the caller is to perform against the backing
//! store. The caller hands the store's answer back as one more message.
//!
//! - [`lanes`]: the lane registry and the lane a task advances to.
//! - [`board`]: the board as a mathematical state machine.
//! - [`task`]: the task entity and the board controller, which follows
//!   that machine step by step.
//! - [`backlog`]: the backlog controller.
//! - [`app`]: the application around the two controllers.
//! - [`view_controller`]: what the two controllers have in common.
//! - [`laws`]: what holds of the board whatever its state.

pub mod app;
pub mod backlog;
pub mod board;
pub mod lanes;
pub mod laws;
pub mod task;
pub mod view_controller;

//! Control plane for supervising several streaming pipelines from one
//! operator console.
//!
//! The crate holds the decisions of the supervisor: how a command is
//! dispatched to a pipeline instance, how an instance reacts to the events
//! of its graph, how the controller tracks instances, and how the shared
//! clock domain is initialised exactly once. Running the graphs and reading
//! the console is left to the program around it.

pub mod command;
pub mod instance;
pub mod controller;
pub mod clock;
pub mod frontend;
pub mod args;
pub mod guarantees;

//! The decisions of the control tool.
//!
//! The tool talks to a running agent over datagrams. What it sends first
//! and what each reply means is decided here; sending, receiving and
//! printing is left to the program around it.
pub mod list;
pub mod message;
pub mod platform;
pub mod queue;
pub mod refusal;
pub mod resource;
pub mod rpc;

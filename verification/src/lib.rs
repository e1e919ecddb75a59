//! Blocking-thread adapters for a bounded multi-producer, single-consumer
//! channel whose native way of waiting is suspension on a cooperative
//! scheduler.
//!
//! A thread that is not driven by such a scheduler cannot suspend; it can only
//! park. The two traits of [`mpsc`] give such a thread a receive and a send
//! that first try the channel's immediate operation and park only when the
//! channel is empty (or full) and still open.
//!
//! * [`channel`] declares the channel's handles and errors and states what is
//!   taken on trust about its four operations.
//! * [`step`] holds the decision that follows an immediate attempt, as total
//!   functions on the attempt's outcome.
//! * [`mpsc`] holds the traits and their implementations for the handles.

pub mod channel;
pub mod mpsc;
pub mod step;

//! A dynamically-resizable worker pool scheduler.
//!
//! The scheduler owns a FIFO queue of opaque work items, a controller state
//! machine that reacts to worker lifecycle events and external resize
//! requests, and the completion accounting that drives a progress sink.
//! Running the actual commands, reading input, and delivering OS signals are
//! left to the embedding program; the scheduler only decides what to do next.

pub mod pool;
pub mod queue;
pub mod worker;
pub mod model;

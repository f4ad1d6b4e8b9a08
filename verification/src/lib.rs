//! A tick-based message engine: systems exchange messages through a
//! double-buffered queue, and a runner drives them tick by tick.
pub mod message_queue;
pub mod run;
pub mod system;

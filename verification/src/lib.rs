//! The consumer half of a durable, offset-checkpointed message stream.
//!
//! A [`consumer::StreamConsumer`] attaches to a remote append-only stream,
//! resumes from a persisted offset, pulls batches of messages, routes each
//! one on, and checkpoints its read position. The consumer never performs a
//! send itself: every transition returns the [`action::Action`]s that the
//! owning actor has to carry out, so that the whole protocol is a function
//! from state and event to next state and actions.

pub mod action;
pub mod consumer;
pub mod laws;
pub mod messages;
pub mod model;
pub mod monotonic;
pub mod parser;
pub mod relay;
pub mod routing;
pub mod scheduler;

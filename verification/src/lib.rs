//! Serialising bridge between a single-threaded front end and a
//! single-instance, blocking circuit-simulation engine.
//!
//! The engine itself is never touched here. The bridge decides what may be
//! handed to it and in which order, queues what it emits until the front end
//! collects it, and shapes the values that travel in both directions.

pub mod error;
pub mod model;
pub mod bridge;
pub mod vectors;
pub mod plots;
pub mod text;
pub mod output;
pub mod command;
pub mod circuit;
pub mod reply;

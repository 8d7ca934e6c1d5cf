//! A cross-platform screen-capture engine facade.
//!
//! The library exposes one uniform contract over heterogeneous native
//! capture backends: an [`engine::Engine`] owns exactly one backend for the
//! lifetime of a capture session, drives it through the lifecycle
//! `Constructed -> Started -> Stopped`, and guarantees that captured frames
//! are handed to an independent consumer through a single channel.

pub mod backend;
pub mod channel;
pub mod engine;
pub mod error;
pub mod frame;
pub mod mock;
pub mod options;

//! Control plane for a supervised helper process: a line-oriented JSON
//! protocol codec, a router that folds helper output into cached state, and
//! the lifecycle state machine that decides when the helper is spawned,
//! written to and killed.
//!
//! The library performs no I/O. Lifecycle operations return the actions that
//! the host has to carry out, and the host reports their outcomes back.

pub mod codec;
pub mod events;
pub mod framing;
pub mod json;
pub mod model;
pub mod supervisor;
pub mod text;

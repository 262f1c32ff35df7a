//! A simulation/synchronization engine: a fixed-timestep clock advances a
//! physics world and publishes immutable snapshots of it to a shared store,
//! from which any number of concurrently connected viewers request the
//! latest state through a small line-oriented text protocol.

pub mod clock;
pub mod json;
pub mod session;
pub mod numtext;
pub mod paths;
pub mod snapshot;
pub mod store;

//! Verified core of a grid-game renderer driving an explicit graphics API.
//!
//! The library models the GPU-facing protocol as plain data: device memory
//! properties, buffer allocations and their host-visible contents, descriptor
//! pools and sets, the per-frame fence/semaphore choreography, and the command
//! sequences recorded for each draw. Every operation carries a contract; the
//! unverified front end executes the recorded actions against the real device.

pub mod buffer;
pub mod commands;
pub mod descriptor;
pub mod device;
pub mod engine;
pub mod game;
pub mod memory;
pub mod tile;

//! Process-level core of a peer-to-peer network node: the version code it
//! advertises, the lifecycle of its identity keys, the wiring of the onion
//! bridge between its two engines, and the rules by which the outcomes of its
//! subsystems become the outcome of the process.

pub mod address;
pub mod bootstrap;
pub mod bridge;
pub mod identity;
pub mod runtime;
pub mod supervisor;
pub mod version;

//! Typed access to memory by physical address.
//!
//! A [`Physical`] handle binds a physical address to a value type. Every
//! transfer of bytes goes through a [`Platform`], which stands for the
//! machine's address translation and its physical block copy.
//! [`SimulatedMemory`] is a platform held entirely in memory.
pub mod laws;
pub mod physical;
pub mod plain;
pub mod platform;
pub mod simulated;

pub use physical::{copy, Physical};
pub use plain::{decode, encode, Plain};
pub use platform::Platform;
pub use simulated::SimulatedMemory;

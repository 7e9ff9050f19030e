//! Resolves a short reference to a tracked issue into the address at which its
//! status can be queried, and classifies the answer of the hosting service.
//!
//! The crate holds the decisions only. Reading the local checkout, the
//! environment and the network is left to the caller, who hands the library
//! plain values and performs the one request that the library may ask for.

pub mod model;
pub mod matching;
pub mod address;
pub mod remote;
pub mod pattern;
pub mod status;
pub mod check;

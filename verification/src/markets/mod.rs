//! The markets that the engine knows.

pub mod czech;
pub mod registry;
pub mod uk;
pub mod usa;

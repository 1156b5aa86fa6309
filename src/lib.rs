//! An ambient spawner: a registration slot that holds the capability through
//! which work is submitted, and the binding that a submitted unit of work
//! carries so that every resumption re-establishes the capability it was
//! submitted under, on whichever worker it lands.

pub mod error;
pub mod slot;
pub mod binding;
pub mod laws;

//! Scheduling of recurring side effects, block bookkeeping of the
//! time-advance engine, and zone classification for a relativistic
//! jet-in-star simulation.

pub mod models;
pub mod scheme;
pub mod tasks;

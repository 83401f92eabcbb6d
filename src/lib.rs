//! Deployment gates: the domain model of a gate and its weekly active-hours
//! policy, and the mapping of that model to its external representation.
pub mod time;
pub mod types;
pub mod representation;

//! An in-memory registry of events, numbered seats and non-fungible tickets,
//! with authenticated ownership transfer.
pub mod text;
pub mod types;
pub mod model;
pub mod registry;
pub mod laws;

//! Scaffolding library: input validation, template resolution with
//! containment checks, destination naming and opener selection.
pub mod opener;
pub mod resolve;
pub mod store;
pub mod target;
pub mod validate;

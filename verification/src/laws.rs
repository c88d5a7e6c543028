//! What the operations of the library are for: relations between their inputs and their results,
//! stated for all inputs.
pub mod devices;
pub mod monitoring;
pub mod settings;
pub mod startup;
pub mod text;

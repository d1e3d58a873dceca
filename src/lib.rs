//! Inventory and lifecycle commands for a local container runtime: the
//! queries sent to the runtime, the normalisation of what it returns into
//! display rows, and the kill request with its report.
pub mod text;
pub mod records;
pub mod command;

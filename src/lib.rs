//! Policy-governed process sandboxing: the decisions of the control daemon
//! and of the isolated-environment engine, with their contracts.
mod text;
pub mod profile;
pub mod command;
pub mod sandbox;
mod clock;
pub mod daemon;
pub mod environment;

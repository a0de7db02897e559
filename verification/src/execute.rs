//! Calls that change the registry.

pub mod register;
pub mod session;

pub use register::register;

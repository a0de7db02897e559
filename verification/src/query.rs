//! Calls that only read the registry.

pub mod select;
pub mod session;
pub mod user;

pub use select::select;
pub use session::session;
pub use user::user;

//! The life of a session: start, refresh, end.

pub mod end;
pub mod refresh;
pub mod start;

pub use end::end;
pub use refresh::refresh;
pub use start::start;

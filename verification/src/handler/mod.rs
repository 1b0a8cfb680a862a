//! The session of a page and the screen that it is shown on.

pub mod page;
pub mod viewport;

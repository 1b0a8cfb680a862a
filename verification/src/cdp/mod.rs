//! The commands of the Chrome DevTools Protocol that the library sends, and what they
//! return.

pub mod browser;
pub mod command;
pub mod construct;
pub mod convert;
pub mod css;
pub mod dom;
pub mod emulation;
pub mod fetch;
pub mod input;
pub mod network;
pub mod page;
pub mod runtime;
pub mod target;

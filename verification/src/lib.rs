//! Drives a page of a browser over the Chrome DevTools Protocol.
//!
//! The library decides what an operation asks for, in which order, and what it makes of
//! the answers. It neither sends nor waits: an operation is a [`flow::Step`] that says
//! what it asks for next, and whoever runs it carries the request out and hands the
//! answer back with [`flow::proceed`]. The contract of each operation is a
//! [`flow::Prog`], the whole conversation for every answer that can come; [`laws`] holds
//! what can be said of such conversations in general, and [`conversation`] what each of them
//! is.

pub mod cdp;
pub mod contents;
pub mod conversation;
pub mod cookies;
pub mod element;
pub mod error;
pub mod evaluate;
pub mod flow;
pub mod handler;
pub mod js;
pub mod json;
pub mod laws;
pub mod layout;
pub mod names;
pub mod number;
pub mod outside;
pub mod page;
pub mod protocol;
pub mod replies;
pub mod screencast;
pub mod screenshot;
pub mod sequence;
pub mod stealth;
pub mod text;

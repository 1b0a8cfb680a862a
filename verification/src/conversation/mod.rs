//! The conversations of the operations, seen from outside: what each asks for, in terms of what
//! it was given and what it was answered, and what it yields in the end.
//!
//! An operation is spoken of as it comes out of the function that starts it. Of
//! `remaining(step)`, the conversation that it is to have, [`crate::flow::Prog::asks`] says what
//! is left of it after a request and a reply. A conversation as a whole is a chain of these, up
//! to what the operation ends with.

pub mod contents;
pub mod cookies;
pub mod defaults;
pub mod disguise;
pub mod elements;
pub mod faithful;
pub mod films;
pub mod keys;
pub mod mouse;
pub mod pages;
pub mod pieces;
pub mod screenshots;
pub mod scripts;
pub mod search;
pub mod streams;
pub mod texts;
pub mod values;
pub mod wording;

//! An interactive stack of text items: a last-in, first-out stack drawn as a column of
//! boxes, the commands that drive it, and what the interpreter answers to each.

pub mod command;
pub mod laws;
pub mod render;
pub mod repl;
pub mod stack;

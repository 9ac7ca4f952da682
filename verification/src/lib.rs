//! A command bridge between a user interface and the native controls of the
//! application's one window.
//!
//! The interface sends named requests. [`registry`] routes each to its
//! handler: [`echo`] answers at once, the window handlers of [`window`] need
//! the host's windowing subsystem. The library never touches that subsystem
//! itself. An [`invocation::Invocation`] says what the host has to do next,
//! and [`invocation::Invocation::step`] takes what the host reports back and
//! decides how the invocation goes on, until it has settled with the result
//! of [`outcome`] that travels back to the caller.

pub mod echo;
pub mod outcome;
pub mod invocation;
pub mod window;
pub mod registry;

//! Keeps two facts of a desktop session in step with the registry that
//! persists them: whether the file manager hides file extensions, and whether
//! this program is registered to start at login.
//!
//! The library performs no input or output of its own. Every operation is a
//! small state machine: it names the next [`host::Request`] to be carried out
//! on the machine, and is resumed with the [`host::Response`] that came back.
//! The [`model`] module describes a machine in the abstract, and [`laws`]
//! proves what the operations do when they run against it.

pub mod config;
pub mod err;
pub mod host;
pub mod laws;
pub mod model;
pub mod process;
pub mod shell;
pub mod startup;
pub mod store;
pub mod ui;
pub mod visibility;
pub mod watcher;

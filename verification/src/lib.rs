//! Backgrounds for the outputs of a desktop session.
//!
//! The library holds the configuration model, resolves configured image
//! sources to paths, plans the filesystem watches of those paths, and keeps
//! the rotation queue of each output in step with what the watches report.
//! It neither touches the filesystem nor runs an event loop: a driver does
//! what the steps of a [`watch::WatchSetup`] ask for, and hands every
//! delivered event to [`sync::dispatch`].

pub mod config;
pub mod error;
pub mod event;
pub mod queue;
pub mod source;
pub mod sync;
pub mod watch;

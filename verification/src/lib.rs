//! An interactive browser of terminal-multiplexer sessions.
//!
//! The browser lists the running sessions with their pane titles and the
//! exited sessions that can be resurrected, lets the user move a selection
//! through them, and tells the host which session to switch to, create or
//! delete. This library holds all of its decisions; painting the rows and
//! talking to the host is left to the program around it.
//!
//! - [`session`]: the sessions and the titles of their panes.
//! - [`entry`]: the sessions flattened into entries that tile the lines.
//! - [`viewport`]: the scroll offset that keeps the selection in view, and
//!   the lines that fall in the window.
//! - [`controller`]: keys, actions, selection moves and effects on the host.
//! - [`text`]: styled lines, ages and the list of key bindings.
//! - [`listing`]: the visible lines as styled text.
//! - [`state`]: the browser's state, what an event does to it and what a
//!   render shows.

pub mod controller;
pub mod entry;
pub mod listing;
pub mod session;
pub mod state;
pub mod text;
pub mod viewport;

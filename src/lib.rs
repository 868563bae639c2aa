//! Terminal presentation and interaction engine of a modal text editor:
//! cell grids with minimal diffs, line gutters, the scroll policy, key
//! resolution with chords, and the decisions of the event loop.

pub mod style;
pub mod editor;
pub mod viewport;
pub mod text;
pub mod config;
pub mod gutter;
pub mod scroll;
pub mod event_handler;
pub mod view;
pub mod session;
pub mod highlight;
pub mod statusline;

//! Application state and navigation engine of a terminal browser for a
//! document database: screens, list cursors, text-entry sessions and the
//! compilation of filter text into filter documents.

pub mod models;
pub mod screen;
pub mod selection;
pub mod filter;
pub mod state;
mod text;

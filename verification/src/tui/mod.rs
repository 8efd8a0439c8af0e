//! The browser: its state, its key handling and what its panels show.

pub mod app;
pub mod scroll;
pub mod ui;

//! A catalog of notes and projects under one root directory, and the state
//! machine of the terminal browser that walks through it.
//!
//! The crate holds the decisions only: how directory entries become notes and
//! projects, how names are validated and chosen, how key presses move the
//! selection, and what each panel shows. Reading directories, drawing and
//! prompting are left to the program around it.

pub mod actions;
pub mod bootstrap;
pub mod catalog;
pub mod catalog_laws;
pub mod errors;
pub mod path;
pub mod prompts;
pub mod structs;
pub mod text;
pub mod tui;

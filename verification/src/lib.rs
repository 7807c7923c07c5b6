//! Terse: the logic of a terminal client for Terse servers.
//!
//! The layout, text, selection and menu rules of the client live here with
//! their contracts; drawing, terminal events, files and network requests are
//! left to the program around the library.

pub mod paint;
pub mod text;
pub mod tui;
pub mod network;
pub mod posts;
pub mod cli;
pub mod data;

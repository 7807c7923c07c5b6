//! The terminal interface: sizes, labels, keys and the state of each component.

pub mod keys;
pub mod label;
pub mod selection;
pub mod size;
pub mod search_menu;
pub mod app;
pub mod blinker;
pub mod selectable;
pub mod look;

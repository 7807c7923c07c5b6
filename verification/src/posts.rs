//! Posts and the widget that shows one.

pub mod post_widget;
pub mod posts;

//! The search screen: the query bar, the server picker and the results.

pub mod search_bar;
pub mod search_results;
pub mod search_server_select;
pub mod search_bar_menu;
pub mod search_menu;

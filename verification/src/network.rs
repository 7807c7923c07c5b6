//! Servers, the accounts on them, and what the client makes of their replies.

pub mod login_info;
pub mod address;
pub mod server;
pub mod server_list;
pub mod search;
pub mod info;
pub mod login;
pub mod routes;

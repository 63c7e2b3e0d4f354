//! The client of the management API: requests, answers, credentials and
//! bearer tokens.

pub mod admin_token;
pub mod admins;
pub mod auth;
pub mod client;
pub mod error_response;
pub mod filesystem;
pub mod folders;
pub mod rest_client;
pub mod users;
pub mod virtual_folder_reference;

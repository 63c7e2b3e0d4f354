//! The controller: what it renders for a server resource and how it
//! drives users, folders and administrators through the management API.

pub mod admin_reconciler;
pub mod filesystem;
pub mod finalizers;
pub mod folder_reconciler;
pub mod lifecycle;
pub mod reconciler;
pub mod sftpgo_multi_client;
pub mod sftpgo_server_reconciler;
pub mod triggers;
pub mod user_reconciler;

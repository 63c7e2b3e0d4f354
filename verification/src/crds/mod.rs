//! The custom resources and the serializer that flattens their
//! configuration into environment variables.

pub mod admin;
pub mod filesystem;
pub mod folder;
pub mod round_trip;
pub mod server;
pub mod sftpgo_server_reference;
pub mod sftpgo_status;
pub mod user;
pub mod value;
pub mod viper_environment_serializer;
pub mod virtual_folder_reference;

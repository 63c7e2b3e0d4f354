//! The user resource.

use crate::crds::filesystem::FileSystem;
use crate::crds::sftpgo_server_reference::ServerReference;
use crate::crds::sftpgo_status::SftpgoStatus;
use crate::crds::virtual_folder_reference::VirtualFolderReference;
use crate::kubernetes::ObjectMeta;
use vstd::prelude::*;

verus! {

/// Whether a user or an administrator can sign in.
#[derive(Debug, Clone, Copy, PartialEq, Eq, Structural)]
pub enum SftpgoUserStatus {
    Disabled,
    Enabled,
}

/// What a user is allowed to do in a directory.
#[derive(Debug, Clone, Copy, PartialEq, Eq, Structural)]
pub enum UserPermission {
    All,
    List,
    Download,
    Upload,
    Overwrite,
    CreateDirs,
    Rename,
    RenameFiles,
    RenameDirs,
    Delete,
    DeleteFiles,
    DeleteDirs,
    CreateSymlinks,
    Chmod,
    Chown,
    Chtimes,
}

impl Default for UserPermission {
    fn default() -> (r: Self)
        ensures
            r == UserPermission::All,
    {
        UserPermission::All
    }
}

impl UserPermission {
    /// The token of the permission in the management API: `*` for every
    /// permission, else the name in lower case with underscores.
    pub open spec fn token(&self) -> Seq<char> {
        match self {
            UserPermission::All => "*"@,
            UserPermission::List => "list"@,
            UserPermission::Download => "download"@,
            UserPermission::Upload => "upload"@,
            UserPermission::Overwrite => "overwrite"@,
            UserPermission::CreateDirs => "create_dirs"@,
            UserPermission::Rename => "rename"@,
            UserPermission::RenameFiles => "rename_files"@,
            UserPermission::RenameDirs => "rename_dirs"@,
            UserPermission::Delete => "delete"@,
            UserPermission::DeleteFiles => "delete_files"@,
            UserPermission::DeleteDirs => "delete_dirs"@,
            UserPermission::CreateSymlinks => "create_symlinks"@,
            UserPermission::Chmod => "chmod"@,
            UserPermission::Chown => "chown"@,
            UserPermission::Chtimes => "chtimes"@,
        }
    }

    /// The token of the permission in the management API.
    pub fn to_string(&self) -> (r: String)
        ensures
            r@ == self.token(),
    {
        match self {
            UserPermission::All => "*".to_owned(),
            UserPermission::List => "list".to_owned(),
            UserPermission::Download => "download".to_owned(),
            UserPermission::Upload => "upload".to_owned(),
            UserPermission::Overwrite => "overwrite".to_owned(),
            UserPermission::CreateDirs => "create_dirs".to_owned(),
            UserPermission::Rename => "rename".to_owned(),
            UserPermission::RenameFiles => "rename_files".to_owned(),
            UserPermission::RenameDirs => "rename_dirs".to_owned(),
            UserPermission::Delete => "delete".to_owned(),
            UserPermission::DeleteFiles => "delete_files".to_owned(),
            UserPermission::DeleteDirs => "delete_dirs".to_owned(),
            UserPermission::CreateSymlinks => "create_symlinks".to_owned(),
            UserPermission::Chmod => "chmod".to_owned(),
            UserPermission::Chown => "chown".to_owned(),
            UserPermission::Chtimes => "chtimes".to_owned(),
        }
    }
}

/// The permissions of a user in one directory.
#[derive(Debug, Clone, PartialEq)]
pub struct DirectoryPermission {
    pub path: String,
    pub permissions: Vec<UserPermission>,
}

/// What a resource declares of a user.
#[derive(Debug, Clone, PartialEq)]
pub struct SftpgoUserConfiguration {
    /// The name that the user signs in with.
    pub username: String,
    /// The password. It is sent on every write, and never read back.
    pub password: String,
    pub enabled: Option<SftpgoUserStatus>,
    /// The permissions at the root; every permission where empty.
    pub global_permissions: Vec<UserPermission>,
    pub per_directory_permissions: Option<Vec<DirectoryPermission>>,
    /// The storage behind the home directory.
    pub filesystem: FileSystem,
    pub home_dir: String,
    /// The virtual folders that the user has access to.
    pub virtual_folders: Option<Vec<VirtualFolderReference>>,
}

/// What the author of a user resource asks for.
#[derive(Debug, Clone, PartialEq)]
pub struct SftpgoUserSpec {
    pub configuration: SftpgoUserConfiguration,
    /// Whether a connected user is disconnected when the resource
    /// changes, so that the new configuration applies at once.
    pub disconnect_on_change: Option<bool>,
    pub server_reference: ServerReference,
}

/// The status of a user resource.
#[derive(Debug, Clone, PartialEq)]
pub struct SftpgoUserResourceStatus {
    pub last_username: String,
    pub user_id: Option<i32>,
}

impl Default for SftpgoUserResourceStatus {
    fn default() -> (r: Self)
        ensures
            r.last_username@ == Seq::<char>::empty(),
            r.user_id is None,
    {
        SftpgoUserResourceStatus { last_username: String::new(), user_id: None }
    }
}

impl SftpgoStatus for SftpgoUserResourceStatus {
    open spec fn last_name(&self) -> Seq<char> {
        self.last_username@
    }

    open spec fn id(&self) -> Option<i32> {
        self.user_id
    }

    fn get_last_name(&self) -> (name: &str) {
        self.last_username.as_str()
    }

    fn set_last_name(&mut self, name: &str) {
        self.last_username = name.to_owned();
    }

    fn get_id(&self) -> (id: Option<i32>) {
        self.user_id
    }

    fn set_id(&mut self, id: Option<i32>) {
        self.user_id = id;
    }
}

/// A user resource as the cluster holds it.
#[derive(Debug, Clone, PartialEq)]
pub struct SftpgoUser {
    pub metadata: ObjectMeta,
    pub spec: SftpgoUserSpec,
    pub status: Option<SftpgoUserResourceStatus>,
}

} // verus!

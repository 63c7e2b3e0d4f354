//! How a user names a virtual folder that it has access to.

use vstd::prelude::*;

verus! {

/// A virtual folder of a user, by the folder resource that defines it.
#[derive(Debug, Clone, PartialEq)]
pub struct VirtualFolderReference {
    /// The name of the folder resource.
    pub name: String,
    /// The namespace of the folder resource, if it is not that of the
    /// user.
    pub namespace: Option<String>,
    /// The path under which the user sees the folder.
    pub virtual_path: String,
    /// Quota as size in bytes: 0 is unlimited, -1 is included in the
    /// user's quota.
    pub quota_size: Option<i64>,
    /// Quota as number of files: 0 is unlimited, -1 is included in the
    /// user's quota.
    pub quota_files: Option<i32>,
}

} // verus!

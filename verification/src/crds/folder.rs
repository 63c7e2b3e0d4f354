//! The virtual-folder resource.

use crate::crds::filesystem::FileSystem;
use crate::crds::sftpgo_server_reference::ServerReference;
use crate::crds::sftpgo_status::SftpgoStatus;
use crate::kubernetes::ObjectMeta;
use vstd::prelude::*;

verus! {

/// What a resource declares of a virtual folder. The same folder can be
/// shared among users, each with its own quota and virtual path.
#[derive(Debug, Clone, PartialEq)]
pub struct SftpgoFolderConfiguration {
    /// The unique name of the folder.
    pub name: String,
    /// The absolute path that the folder maps to.
    pub mapped_path: String,
    pub description: Option<String>,
    /// The storage behind the folder.
    pub filesystem: FileSystem,
}

/// What the author of a folder resource asks for.
#[derive(Debug, Clone, PartialEq)]
pub struct SftpgoFolderSpec {
    pub configuration: SftpgoFolderConfiguration,
    pub server_reference: ServerReference,
}

/// The status of a folder resource.
#[derive(Debug, Clone, PartialEq)]
pub struct SftpgoFolderResourceStatus {
    pub last_name: String,
    pub folder_id: Option<i32>,
}

impl Default for SftpgoFolderResourceStatus {
    fn default() -> (r: Self)
        ensures
            r.last_name@ == Seq::<char>::empty(),
            r.folder_id is None,
    {
        SftpgoFolderResourceStatus { last_name: String::new(), folder_id: None }
    }
}

impl SftpgoStatus for SftpgoFolderResourceStatus {
    open spec fn last_name(&self) -> Seq<char> {
        self.last_name@
    }

    open spec fn id(&self) -> Option<i32> {
        self.folder_id
    }

    fn get_last_name(&self) -> (name: &str) {
        self.last_name.as_str()
    }

    fn set_last_name(&mut self, name: &str) {
        self.last_name = name.to_owned();
    }

    fn get_id(&self) -> (id: Option<i32>) {
        self.folder_id
    }

    fn set_id(&mut self, id: Option<i32>) {
        self.folder_id = id;
    }
}

/// A folder resource as the cluster holds it.
#[derive(Debug, Clone, PartialEq)]
pub struct SftpgoFolder {
    pub metadata: ObjectMeta,
    pub spec: SftpgoFolderSpec,
    pub status: Option<SftpgoFolderResourceStatus>,
}

} // verus!

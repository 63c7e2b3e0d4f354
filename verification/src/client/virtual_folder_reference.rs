//! A virtual folder of a user, as the management API takes it.

use vstd::prelude::*;

verus! {

/// A virtual folder of a user, by the name of the folder on the server.
#[derive(Debug, Clone, PartialEq, Eq, Default)]
pub struct VirtualFolderReference {
    pub name: String,
    pub virtual_path: String,
    pub quota_size: i64,
    pub quota_files: i32,
}

/// The model of a [`VirtualFolderReference`].
pub struct VirtualFolderReferenceView {
    pub name: Seq<char>,
    pub virtual_path: Seq<char>,
    pub quota_size: i64,
    pub quota_files: i32,
}

impl View for VirtualFolderReference {
    type V = VirtualFolderReferenceView;

    open spec fn view(&self) -> VirtualFolderReferenceView {
        VirtualFolderReferenceView {
            name: self.name@,
            virtual_path: self.virtual_path@,
            quota_size: self.quota_size,
            quota_files: self.quota_files,
        }
    }
}

} // verus!

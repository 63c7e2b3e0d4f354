//! Virtual folders as the management API takes and gives them.

use crate::client::filesystem::{FileSystem, FileSystemView};
use crate::client::rest_client::{CreatedFrom, Creates, Existing, Named};
use crate::kubernetes::optional_text;
use vstd::prelude::*;

verus! {

/// A folder as it is written to the server.
#[derive(Debug, Clone, PartialEq, Eq)]
pub struct FolderRequest {
    pub name: String,
    pub mapped_path: Option<String>,
    pub description: Option<String>,
    pub filesystem: FileSystem,
}

/// The model of a [`FolderRequest`].
pub struct FolderRequestView {
    pub name: Seq<char>,
    pub mapped_path: Option<Seq<char>>,
    pub description: Option<Seq<char>>,
    pub filesystem: FileSystemView,
}

impl View for FolderRequest {
    type V = FolderRequestView;

    open spec fn view(&self) -> FolderRequestView {
        FolderRequestView {
            name: self.name@,
            mapped_path: optional_text(self.mapped_path),
            description: optional_text(self.description),
            filesystem: self.filesystem@,
        }
    }
}

impl Named for FolderRequest {
    open spec fn spec_name(&self) -> Seq<char> {
        self.name@
    }

    fn name(&self) -> (r: &str) {
        self.name.as_str()
    }
}

impl Creates<FolderResponse> for FolderRequest {

}

/// A folder as the server holds it.
#[derive(Debug, Clone, PartialEq, Eq)]
pub struct FolderResponse {
    pub id: i32,
    pub name: String,
    pub mapped_path: Option<String>,
    pub description: Option<String>,
    pub filesystem: FileSystem,
}

impl Existing for FolderResponse {
    open spec fn spec_name(&self) -> Seq<char> {
        self.name@
    }

    open spec fn spec_id(&self) -> i32 {
        self.id
    }

    fn name(&self) -> (r: &str) {
        self.name.as_str()
    }

    fn id(&self) -> (r: i32) {
        self.id
    }
}

impl CreatedFrom<FolderRequest> for FolderResponse {

}

} // verus!

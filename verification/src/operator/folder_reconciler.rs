//! The folder resource as the reconciler sees it.

use crate::client::folders::{FolderRequest, FolderRequestView};
use crate::client::rest_client::EntityKind;
use crate::crds::folder::{SftpgoFolder, SftpgoFolderResourceStatus};
use crate::crds::sftpgo_server_reference::ServerReference;
use crate::kubernetes::{clone_optional_text, optional_text, ObjectMeta};
use crate::operator::filesystem::{calculate_file_system, file_system_model};
use crate::operator::reconciler::{Error, SftpgoResource};
use vstd::prelude::*;

verus! {

/// The folder that the management API is asked to hold for a resource.
pub open spec fn folder_request_model(folder: SftpgoFolder) -> FolderRequestView {
    FolderRequestView {
        name: folder.spec.configuration.name@,
        mapped_path: Some(folder.spec.configuration.mapped_path@),
        description: optional_text(folder.spec.configuration.description),
        filesystem: file_system_model(folder.spec.configuration.filesystem),
    }
}

impl SftpgoResource for SftpgoFolder {
    type Status = SftpgoFolderResourceStatus;

    open spec fn spec_name(&self) -> Seq<char> {
        self.spec.configuration.name@
    }

    open spec fn spec_metadata(&self) -> ObjectMeta {
        self.metadata
    }

    open spec fn spec_status(&self) -> Option<SftpgoFolderResourceStatus> {
        self.status
    }

    open spec fn spec_server_reference(&self) -> ServerReference {
        self.spec.server_reference
    }

    open spec fn spec_kind() -> EntityKind {
        EntityKind::Folder
    }

    fn kind() -> (k: EntityKind) {
        EntityKind::Folder
    }

    fn get_name(&self) -> (name: &str) {
        self.spec.configuration.name.as_str()
    }

    fn get_metadata(&self) -> (meta: &ObjectMeta) {
        &self.metadata
    }

    fn get_server_reference(&self) -> (r: &ServerReference) {
        &self.spec.server_reference
    }

    fn get_status(&self) -> (status: &Option<SftpgoFolderResourceStatus>) {
        &self.status
    }
}

impl SftpgoFolder {
    /// The folder that the management API is asked to hold: the
    /// declared values, with the storage translated.
    pub fn get_request(&self) -> (r: Result<FolderRequest, Error>)
        ensures
            r matches Ok(request) && request@ == folder_request_model(*self),
    {
        let folder_configuration = &self.spec.configuration;
        let filesystem = match calculate_file_system(&folder_configuration.filesystem) {
            Ok(fs) => fs,
            Err(e) => {
                return Err(e);
            },
        };
        let request = FolderRequest {
            name: folder_configuration.name.clone(),
            description: clone_optional_text(&folder_configuration.description),
            mapped_path: Some(folder_configuration.mapped_path.clone()),
            filesystem,
        };
        Ok(request)
    }
}

} // verus!

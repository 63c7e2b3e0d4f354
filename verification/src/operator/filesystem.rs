//! From the storage that a resource declares to the storage that the
//! management API takes.

use crate::client::filesystem::{
    plain_secret, AzureAuthorizationView, AzureBlobStorageView, FileSystem as ClientFileSystem,
    FileSystemConfigAzureBlobStorage, FileSystemConfigAzureBlobStorageAccessTier,
    FileSystemConfigAzureBlobStorageAuthorization, FileSystemOsConfig, FileSystemProvider,
    FileSystemView, SftpgoSecret,
};
use crate::crds::filesystem::{
    AzureBlobStorageAccessTier as CrdAccessTier, AzureBlobStorageAuthorization,
    FileSystem as CrdFileSystem, FileSystemAzureBlobStorage,
};
use crate::kubernetes::{clone_optional_text, optional_text};
use crate::operator::reconciler::Error;
use vstd::prelude::*;

verus! {

/// The access tier of the management API for a declared one.
pub open spec fn access_tier_model(tier: CrdAccessTier) -> FileSystemConfigAzureBlobStorageAccessTier {
    match tier {
        CrdAccessTier::Hot => FileSystemConfigAzureBlobStorageAccessTier::Hot,
        CrdAccessTier::Cool => FileSystemConfigAzureBlobStorageAccessTier::Cool,
        CrdAccessTier::Archive => FileSystemConfigAzureBlobStorageAccessTier::Archive,
    }
}

/// The authorization of the management API for a declared one: the
/// account key and the signature URL become secrets in the clear.
pub open spec fn authorization_model(auth: AzureBlobStorageAuthorization) -> AzureAuthorizationView {
    match auth {
        AzureBlobStorageAuthorization::SharedKey { container, account_name, account_key } => {
            AzureAuthorizationView::SharedKey {
                account_name: account_name@,
                container: container@,
                account_key: plain_secret(account_key@),
            }
        },
        AzureBlobStorageAuthorization::SharedAccessSignatureUrl(url) => {
            AzureAuthorizationView::SharedAccessSignatureUrl { sas_url: plain_secret(url@) }
        },
    }
}

/// The Azure settings of the management API for declared ones.
pub open spec fn azure_model(blob: FileSystemAzureBlobStorage) -> AzureBlobStorageView {
    AzureBlobStorageView {
        auth: authorization_model(blob.authorization),
        endpoint: optional_text(blob.endpoint),
        upload_part_size: blob.upload_part_size,
        upload_concurrency: blob.upload_concurrency,
        download_part_size: blob.download_part_size,
        download_concurrency: blob.download_concurrency,
        access_tier: match blob.access_tier {
            Some(t) => Some(access_tier_model(t)),
            None => None,
        },
        key_prefix: optional_text(blob.key_prefix),
        use_emulator: blob.use_emulator,
    }
}

/// The storage of the management API for a declared one: the provider,
/// and the settings of that provider alone.
pub open spec fn file_system_model(filesystem: CrdFileSystem) -> FileSystemView {
    match filesystem {
        CrdFileSystem::Local { read_buffer_size, write_buffer_size } => FileSystemView {
            provider: FileSystemProvider::LocalFilesystem,
            os_config: Some(FileSystemOsConfig { read_buffer_size, write_buffer_size }),
            az_blob_config: None,
        },
        CrdFileSystem::AzureBlobStorage(blob) => FileSystemView {
            provider: FileSystemProvider::AzureBlobStorage,
            os_config: None,
            az_blob_config: Some(azure_model(*blob)),
        },
    }
}

/// The storage of the management API for a declared one. It never
/// fails.
pub fn calculate_file_system(filesystem: &CrdFileSystem) -> (r: Result<ClientFileSystem, Error>)
    ensures
        r matches Ok(fs) && fs@ == file_system_model(*filesystem),
{
    let fs = match filesystem {
        CrdFileSystem::Local { read_buffer_size, write_buffer_size } => ClientFileSystem {
            provider: FileSystemProvider::LocalFilesystem,
            os_config: Some(
                FileSystemOsConfig {
                    read_buffer_size: *read_buffer_size,
                    write_buffer_size: *write_buffer_size,
                },
            ),
            az_blob_config: None,
        },
        CrdFileSystem::AzureBlobStorage(blob) => ClientFileSystem {
            provider: FileSystemProvider::AzureBlobStorage,
            os_config: None,
            az_blob_config: Some(
                FileSystemConfigAzureBlobStorage {
                    auth: match &blob.authorization {
                        AzureBlobStorageAuthorization::SharedKey {
                            account_key,
                            account_name,
                            container,
                        } => FileSystemConfigAzureBlobStorageAuthorization::SharedKey {
                            account_name: account_name.clone(),
                            container: container.clone(),
                            account_key: SftpgoSecret::plain(account_key.clone()),
                        },
                        AzureBlobStorageAuthorization::SharedAccessSignatureUrl(url) => {
                            FileSystemConfigAzureBlobStorageAuthorization::SharedAccessSignatureUrl {
                                sas_url: SftpgoSecret::plain(url.clone()),
                            }
                        },
                    },
                    endpoint: clone_optional_text(&blob.endpoint),
                    upload_part_size: blob.upload_part_size,
                    upload_concurrency: blob.upload_concurrency,
                    download_part_size: blob.download_part_size,
                    download_concurrency: blob.download_concurrency,
                    access_tier: match blob.access_tier {
                        Some(t) => Some(
                            match t {
                                CrdAccessTier::Hot => FileSystemConfigAzureBlobStorageAccessTier::Hot,
                                CrdAccessTier::Cool => {
                                    FileSystemConfigAzureBlobStorageAccessTier::Cool
                                },
                                CrdAccessTier::Archive => {
                                    FileSystemConfigAzureBlobStorageAccessTier::Archive
                                },
                            },
                        ),
                        None => None,
                    },
                    key_prefix: clone_optional_text(&blob.key_prefix),
                    use_emulator: blob.use_emulator,
                },
            ),
        },
    };
    Ok(fs)
}

} // verus!

//! The storage behind a user or a folder, as the management API takes
//! it.

use crate::kubernetes::optional_text;
use vstd::prelude::*;

verus! {

/// The kind of storage.
#[derive(Debug, Clone, Copy, PartialEq, Eq, Structural)]
pub enum FileSystemProvider {
    LocalFilesystem,
    S3,
    GoogleCloudStorage,
    AzureBlobStorage,
    LocalFileSystemEncrypted,
    Sftp,
    Http,
}

impl Default for FileSystemProvider {
    fn default() -> (r: Self)
        ensures
            r == FileSystemProvider::LocalFilesystem,
    {
        FileSystemProvider::LocalFilesystem
    }
}

impl FileSystemProvider {
    /// The number that stands for the provider on the wire.
    pub open spec fn spec_code(&self) -> u8 {
        match self {
            FileSystemProvider::LocalFilesystem => 0,
            FileSystemProvider::S3 => 1,
            FileSystemProvider::GoogleCloudStorage => 2,
            FileSystemProvider::AzureBlobStorage => 3,
            FileSystemProvider::LocalFileSystemEncrypted => 4,
            FileSystemProvider::Sftp => 5,
            FileSystemProvider::Http => 6,
        }
    }

    /// The number that stands for the provider on the wire.
    pub fn code(&self) -> (c: u8)
        ensures
            c == self.spec_code(),
    {
        match self {
            FileSystemProvider::LocalFilesystem => 0,
            FileSystemProvider::S3 => 1,
            FileSystemProvider::GoogleCloudStorage => 2,
            FileSystemProvider::AzureBlobStorage => 3,
            FileSystemProvider::LocalFileSystemEncrypted => 4,
            FileSystemProvider::Sftp => 5,
            FileSystemProvider::Http => 6,
        }
    }

    /// The provider that a number stands for, if it stands for one.
    pub fn from_code(code: u8) -> (p: Option<Self>)
        ensures
            match p {
                Some(provider) => provider.spec_code() == code,
                None => code > 6,
            },
    {
        match code {
            0 => Some(FileSystemProvider::LocalFilesystem),
            1 => Some(FileSystemProvider::S3),
            2 => Some(FileSystemProvider::GoogleCloudStorage),
            3 => Some(FileSystemProvider::AzureBlobStorage),
            4 => Some(FileSystemProvider::LocalFileSystemEncrypted),
            5 => Some(FileSystemProvider::Sftp),
            6 => Some(FileSystemProvider::Http),
            _ => None,
        }
    }
}

/// How the payload of a secret is protected.
#[derive(Debug, Clone, Copy, PartialEq, Eq, Structural)]
pub enum SftpgoSecretStatus {
    /// Not at all: the server encrypts the payload when it stores it.
    Plain,
    Aes256Gcm,
    Secretbox,
    GCP,
    AWS,
    ValueTransit,
    AzureKeyVault,
    Redacted,
}

impl Default for SftpgoSecretStatus {
    fn default() -> (r: Self)
        ensures
            r == SftpgoSecretStatus::Plain,
    {
        SftpgoSecretStatus::Plain
    }
}

/// A secret value.
#[derive(Debug, Clone, PartialEq, Eq)]
pub struct SftpgoSecret {
    pub status: SftpgoSecretStatus,
    pub payload: String,
    pub key: Option<String>,
    pub additional_data: Option<String>,
    pub mode: Option<i32>,
}

/// The model of a [`SftpgoSecret`].
pub struct SftpgoSecretView {
    pub status: SftpgoSecretStatus,
    pub payload: Seq<char>,
    pub key: Option<Seq<char>>,
    pub additional_data: Option<Seq<char>>,
    pub mode: Option<i32>,
}

impl View for SftpgoSecret {
    type V = SftpgoSecretView;

    open spec fn view(&self) -> SftpgoSecretView {
        SftpgoSecretView {
            status: self.status,
            payload: self.payload@,
            key: optional_text(self.key),
            additional_data: optional_text(self.additional_data),
            mode: self.mode,
        }
    }
}

/// A secret given in the clear.
pub open spec fn plain_secret(payload: Seq<char>) -> SftpgoSecretView {
    SftpgoSecretView {
        status: SftpgoSecretStatus::Plain,
        payload,
        key: None,
        additional_data: None,
        mode: None,
    }
}

impl SftpgoSecret {
    /// A secret given in the clear, for the server to encrypt.
    pub fn plain(payload: String) -> (s: Self)
        ensures
            s@ == plain_secret(payload@),
    {
        SftpgoSecret {
            status: SftpgoSecretStatus::Plain,
            payload,
            key: None,
            additional_data: None,
            mode: None,
        }
    }
}

/// The access tier of blobs.
#[derive(Debug, Clone, Copy, PartialEq, Eq, Structural)]
pub enum FileSystemConfigAzureBlobStorageAccessTier {
    Hot,
    Cool,
    Archive,
}

/// How access to Azure Blob Storage is authorized.
#[derive(Debug, Clone, PartialEq, Eq)]
pub enum FileSystemConfigAzureBlobStorageAuthorization {
    SharedKey { account_name: String, container: String, account_key: SftpgoSecret },
    SharedAccessSignatureUrl { sas_url: SftpgoSecret },
}

/// The model of a [`FileSystemConfigAzureBlobStorageAuthorization`].
pub enum AzureAuthorizationView {
    SharedKey { account_name: Seq<char>, container: Seq<char>, account_key: SftpgoSecretView },
    SharedAccessSignatureUrl { sas_url: SftpgoSecretView },
}

impl View for FileSystemConfigAzureBlobStorageAuthorization {
    type V = AzureAuthorizationView;

    open spec fn view(&self) -> AzureAuthorizationView {
        match self {
            FileSystemConfigAzureBlobStorageAuthorization::SharedKey {
                account_name,
                container,
                account_key,
            } => AzureAuthorizationView::SharedKey {
                account_name: account_name@,
                container: container@,
                account_key: account_key@,
            },
            FileSystemConfigAzureBlobStorageAuthorization::SharedAccessSignatureUrl { sas_url } => {
                AzureAuthorizationView::SharedAccessSignatureUrl { sas_url: sas_url@ }
            },
        }
    }
}

/// Storage in Azure Blob Storage.
#[derive(Debug, Clone, PartialEq, Eq)]
pub struct FileSystemConfigAzureBlobStorage {
    pub auth: FileSystemConfigAzureBlobStorageAuthorization,
    pub endpoint: Option<String>,
    pub upload_part_size: Option<i32>,
    pub upload_concurrency: Option<i32>,
    pub download_part_size: Option<i32>,
    pub download_concurrency: Option<i32>,
    pub access_tier: Option<FileSystemConfigAzureBlobStorageAccessTier>,
    pub key_prefix: Option<String>,
    pub use_emulator: Option<bool>,
}

/// The model of a [`FileSystemConfigAzureBlobStorage`].
pub struct AzureBlobStorageView {
    pub auth: AzureAuthorizationView,
    pub endpoint: Option<Seq<char>>,
    pub upload_part_size: Option<i32>,
    pub upload_concurrency: Option<i32>,
    pub download_part_size: Option<i32>,
    pub download_concurrency: Option<i32>,
    pub access_tier: Option<FileSystemConfigAzureBlobStorageAccessTier>,
    pub key_prefix: Option<Seq<char>>,
    pub use_emulator: Option<bool>,
}

impl View for FileSystemConfigAzureBlobStorage {
    type V = AzureBlobStorageView;

    open spec fn view(&self) -> AzureBlobStorageView {
        AzureBlobStorageView {
            auth: self.auth@,
            endpoint: optional_text(self.endpoint),
            upload_part_size: self.upload_part_size,
            upload_concurrency: self.upload_concurrency,
            download_part_size: self.download_part_size,
            download_concurrency: self.download_concurrency,
            access_tier: self.access_tier,
            key_prefix: optional_text(self.key_prefix),
            use_emulator: self.use_emulator,
        }
    }
}

/// Storage in the server's own file system.
#[derive(Debug, Clone, Copy, PartialEq, Eq, Structural)]
pub struct FileSystemOsConfig {
    pub read_buffer_size: Option<i32>,
    pub write_buffer_size: Option<i32>,
}

/// The storage behind a user or a folder: the kind, and the settings of
/// that kind.
#[derive(Debug, Clone, PartialEq, Eq)]
pub struct FileSystem {
    pub provider: FileSystemProvider,
    pub os_config: Option<FileSystemOsConfig>,
    pub az_blob_config: Option<FileSystemConfigAzureBlobStorage>,
}

/// The model of a [`FileSystem`].
pub struct FileSystemView {
    pub provider: FileSystemProvider,
    pub os_config: Option<FileSystemOsConfig>,
    pub az_blob_config: Option<AzureBlobStorageView>,
}

impl View for FileSystem {
    type V = FileSystemView;

    open spec fn view(&self) -> FileSystemView {
        FileSystemView {
            provider: self.provider,
            os_config: self.os_config,
            az_blob_config: match self.az_blob_config {
                Some(c) => Some(c@),
                None => None,
            },
        }
    }
}

impl Default for FileSystem {
    /// The local file system with no settings.
    fn default() -> (r: Self)
        ensures
            r.provider == FileSystemProvider::LocalFilesystem,
            r.os_config is None,
            r.az_blob_config is None,
    {
        FileSystem {
            provider: FileSystemProvider::LocalFilesystem,
            os_config: None,
            az_blob_config: None,
        }
    }
}

} // verus!

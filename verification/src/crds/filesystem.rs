//! The storage behind a user or a folder, as a resource declares it.

use vstd::prelude::*;

verus! {

/// Where a value is taken from inside the cluster.
#[derive(Debug, Clone, PartialEq)]
pub enum ValueFrom {
    ConfigMapKeyRef { name: String, key: String },
    SecretKeyRef { name: String, key: String },
}

/// A value given in place, or a place to take it from.
#[derive(Debug, Clone, PartialEq)]
pub enum ProvidedValue<T> {
    Value(T),
    ValueFrom(ValueFrom),
}

/// How access to Azure Blob Storage is authorized.
#[derive(Debug, Clone, PartialEq)]
pub enum AzureBlobStorageAuthorization {
    SharedKey {
        /// The container to use. It must exist: the server does not
        /// create it.
        container: String,
        account_name: String,
        account_key: String,
    },
    SharedAccessSignatureUrl(String),
}

/// The access tier of blobs.
#[derive(Debug, Clone, Copy, PartialEq, Eq, Structural)]
pub enum AzureBlobStorageAccessTier {
    Hot,
    Cool,
    Archive,
}

impl AzureBlobStorageAccessTier {
    /// The name of the tier in lower case.
    pub open spec fn token(&self) -> Seq<char> {
        match self {
            AzureBlobStorageAccessTier::Hot => "hot"@,
            AzureBlobStorageAccessTier::Cool => "cool"@,
            AzureBlobStorageAccessTier::Archive => "archive"@,
        }
    }

    /// The name of the tier in lower case.
    pub fn to_string(&self) -> (r: String)
        ensures
            r@ == self.token(),
    {
        match self {
            AzureBlobStorageAccessTier::Hot => "hot".to_owned(),
            AzureBlobStorageAccessTier::Cool => "cool".to_owned(),
            AzureBlobStorageAccessTier::Archive => "archive".to_owned(),
        }
    }
}

/// Storage in Azure Blob Storage.
#[derive(Debug, Clone, PartialEq)]
pub struct FileSystemAzureBlobStorage {
    pub authorization: AzureBlobStorageAuthorization,
    /// The endpoint; `blob.core.windows.net` where absent.
    pub endpoint: Option<String>,
    /// The buffer size in MB for multipart uploads.
    pub upload_part_size: Option<i32>,
    /// The number of parts uploaded in parallel.
    pub upload_concurrency: Option<i32>,
    /// The buffer size in MB for multipart downloads.
    pub download_part_size: Option<i32>,
    /// The number of parts downloaded in parallel.
    pub download_concurrency: Option<i32>,
    pub access_tier: Option<AzureBlobStorageAccessTier>,
    /// Restricts access to the blobs whose names start with this prefix.
    pub key_prefix: Option<String>,
    pub use_emulator: Option<bool>,
}

/// The storage behind a user or a folder.
#[derive(Debug, Clone, PartialEq)]
pub enum FileSystem {
    /// A directory of the server's own file system.
    Local { read_buffer_size: Option<i32>, write_buffer_size: Option<i32> },
    /// A container in Azure Blob Storage.
    AzureBlobStorage(Box<FileSystemAzureBlobStorage>),
}

impl Default for FileSystem {
    /// The local file system without buffering.
    fn default() -> (r: Self)
        ensures
            r == (FileSystem::Local { read_buffer_size: Some(0), write_buffer_size: Some(0) }),
    {
        FileSystem::Local { write_buffer_size: Some(0), read_buffer_size: Some(0) }
    }
}

} // verus!

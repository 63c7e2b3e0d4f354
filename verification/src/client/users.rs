//! Users as the management API takes and gives them.

use crate::client::client::{url_join, AuthorizedSftpgoClient};
use crate::client::error_response::SftpgoError;
use crate::client::filesystem::{FileSystem, FileSystemView};
use crate::client::rest_client::{
    endpoint_of, is_request, CreatedFrom, Creates, EntityKind, Existing, Named, Operation, Request,
};
use crate::client::virtual_folder_reference::{VirtualFolderReference, VirtualFolderReferenceView};
use crate::kubernetes::optional_text;
use crate::string_map::StringMap;
use vstd::prelude::*;

verus! {

/// Whether a user or an administrator can sign in.
#[derive(Debug, Clone, Copy, PartialEq, Eq, Structural)]
pub enum UserStatus {
    Disabled,
    Enabled,
}

impl Default for UserStatus {
    fn default() -> (r: Self)
        ensures
            r == UserStatus::Disabled,
    {
        UserStatus::Disabled
    }
}

impl UserStatus {
    /// The number that stands for the status on the wire.
    pub open spec fn spec_code(&self) -> u8 {
        match self {
            UserStatus::Disabled => 0,
            UserStatus::Enabled => 1,
        }
    }

    /// The number that stands for the status on the wire: 0 for
    /// disabled, 1 for enabled.
    pub fn code(&self) -> (c: u8)
        ensures
            c == self.spec_code(),
    {
        match self {
            UserStatus::Disabled => 0,
            UserStatus::Enabled => 1,
        }
    }

    /// The status that a number stands for, if it stands for one.
    pub fn from_code(code: u8) -> (s: Option<Self>)
        ensures
            match s {
                Some(status) => status.spec_code() == code,
                None => code > 1,
            },
    {
        match code {
            0 => Some(UserStatus::Disabled),
            1 => Some(UserStatus::Enabled),
            _ => None,
        }
    }
}

/// The texts of a list of texts.
pub open spec fn texts(list: Seq<String>) -> Seq<Seq<char>> {
    list.map_values(|s: String| s@)
}

/// The model of a map from paths to permission tokens.
pub open spec fn permissions_view(m: StringMap<Vec<String>>) -> Map<Seq<char>, Seq<Seq<char>>> {
    m@.map_values(|tokens: Vec<String>| texts(tokens@))
}

/// The models of a list of virtual folders.
pub open spec fn folders_view(list: Seq<VirtualFolderReference>) -> Seq<VirtualFolderReferenceView> {
    list.map_values(|f: VirtualFolderReference| f@)
}

/// A user as it is written to the server.
#[derive(Debug, Clone, Default)]
pub struct UserRequest {
    pub status: UserStatus,
    pub username: String,
    pub email: Option<String>,
    pub description: Option<String>,
    pub expiration_date: Option<i64>,
    pub password: Option<String>,
    pub public_keys: Option<Vec<String>>,
    pub home_dir: String,
    pub uid: Option<i32>,
    pub gid: Option<i32>,
    pub max_sessions: Option<i32>,
    pub quota_size: Option<i64>,
    pub quota_files: Option<i32>,
    /// The permission tokens of each directory, by its path.
    pub permissions: StringMap<Vec<String>>,
    pub upload_bandwidth: Option<i64>,
    pub download_bandwidth: Option<i64>,
    pub upload_data_transfer: Option<i64>,
    pub download_data_transfer: Option<i64>,
    pub total_data_transfer: Option<i64>,
    pub filesystem: FileSystem,
    pub virtual_folders: Option<Vec<VirtualFolderReference>>,
}

/// The model of a [`UserRequest`].
pub struct UserRequestView {
    pub status: UserStatus,
    pub username: Seq<char>,
    pub email: Option<Seq<char>>,
    pub description: Option<Seq<char>>,
    pub expiration_date: Option<i64>,
    pub password: Option<Seq<char>>,
    pub public_keys: Option<Seq<Seq<char>>>,
    pub home_dir: Seq<char>,
    pub uid: Option<i32>,
    pub gid: Option<i32>,
    pub max_sessions: Option<i32>,
    pub quota_size: Option<i64>,
    pub quota_files: Option<i32>,
    pub permissions: Map<Seq<char>, Seq<Seq<char>>>,
    pub upload_bandwidth: Option<i64>,
    pub download_bandwidth: Option<i64>,
    pub upload_data_transfer: Option<i64>,
    pub download_data_transfer: Option<i64>,
    pub total_data_transfer: Option<i64>,
    pub filesystem: FileSystemView,
    pub virtual_folders: Option<Seq<VirtualFolderReferenceView>>,
}

impl View for UserRequest {
    type V = UserRequestView;

    open spec fn view(&self) -> UserRequestView {
        UserRequestView {
            status: self.status,
            username: self.username@,
            email: optional_text(self.email),
            description: optional_text(self.description),
            expiration_date: self.expiration_date,
            password: optional_text(self.password),
            public_keys: match self.public_keys {
                Some(keys) => Some(texts(keys@)),
                None => None,
            },
            home_dir: self.home_dir@,
            uid: self.uid,
            gid: self.gid,
            max_sessions: self.max_sessions,
            quota_size: self.quota_size,
            quota_files: self.quota_files,
            permissions: permissions_view(self.permissions),
            upload_bandwidth: self.upload_bandwidth,
            download_bandwidth: self.download_bandwidth,
            upload_data_transfer: self.upload_data_transfer,
            download_data_transfer: self.download_data_transfer,
            total_data_transfer: self.total_data_transfer,
            filesystem: self.filesystem@,
            virtual_folders: match self.virtual_folders {
                Some(folders) => Some(folders_view(folders@)),
                None => None,
            },
        }
    }
}

impl Named for UserRequest {
    open spec fn spec_name(&self) -> Seq<char> {
        self.username@
    }

    fn name(&self) -> (r: &str) {
        self.username.as_str()
    }
}

impl Creates<UserResponse> for UserRequest {

}

/// A user as the server holds it.
#[derive(Debug, Clone, Default)]
pub struct UserResponse {
    pub id: i32,
    pub status: UserStatus,
    pub username: String,
    pub password: Option<String>,
    pub email: Option<String>,
    pub description: Option<String>,
    pub expiration_date: Option<i64>,
    pub public_keys: Option<Vec<String>>,
    pub home_dir: String,
    pub uid: Option<i32>,
    pub gid: Option<i32>,
    pub max_sessions: Option<i32>,
    pub quota_size: Option<i64>,
    pub quota_files: Option<i32>,
    pub permissions: Option<StringMap<Vec<String>>>,
    pub upload_bandwidth: Option<i64>,
    pub download_bandwidth: Option<i64>,
    pub upload_data_transfer: Option<i64>,
    pub download_data_transfer: Option<i64>,
    pub total_data_transfer: Option<i64>,
}

impl Existing for UserResponse {
    open spec fn spec_name(&self) -> Seq<char> {
        self.username@
    }

    open spec fn spec_id(&self) -> i32 {
        self.id
    }

    fn name(&self) -> (r: &str) {
        self.username.as_str()
    }

    fn id(&self) -> (r: i32) {
        self.id
    }
}

impl CreatedFrom<UserRequest> for UserResponse {

}

/// The requests of the management API for users.
pub trait UsersClient {
    /// The base URL of the server.
    spec fn users_base_url(&self) -> Seq<char>;

    /// The request that creates a user: a POST to `/api/v2/users`.
    fn add_user(&self, user: &UserRequest, auth_header_value: String) -> (r: Result<Request, SftpgoError>)
        ensures
            is_request(
                Operation::Create,
                url_join(self.users_base_url(), endpoint_of(EntityKind::User, None)),
                auth_header_value@,
                r,
            ),
    ;

    /// The request that updates a user: a PUT to
    /// `/api/v2/users/<username>`.
    fn update_user(&self, user: &UserRequest, auth_header_value: String) -> (r: Result<
        Request,
        SftpgoError,
    >)
        ensures
            is_request(
                Operation::Update,
                url_join(
                    self.users_base_url(),
                    endpoint_of(EntityKind::User, Some(user.username@)),
                ),
                auth_header_value@,
                r,
            ),
    ;

    /// The request that looks a user up: a GET of
    /// `/api/v2/users/<username>`.
    fn get_user(&self, username: &str, auth_header_value: String) -> (r: Result<Request, SftpgoError>)
        ensures
            is_request(
                Operation::Get,
                url_join(self.users_base_url(), endpoint_of(EntityKind::User, Some(username@))),
                auth_header_value@,
                r,
            ),
    ;

    /// The request that deletes a user: a DELETE of
    /// `/api/v2/users/<username>`.
    fn delete_user(&self, username: &str, auth_header_value: String) -> (r: Result<
        Request,
        SftpgoError,
    >)
        ensures
            is_request(
                Operation::Delete,
                url_join(self.users_base_url(), endpoint_of(EntityKind::User, Some(username@))),
                auth_header_value@,
                r,
            ),
    ;
}

impl<TAuthContext> UsersClient for AuthorizedSftpgoClient<TAuthContext> {
    open spec fn users_base_url(&self) -> Seq<char> {
        self.client.base_url@
    }

    fn add_user(&self, user: &UserRequest, auth_header_value: String) -> (r: Result<Request, SftpgoError>) {
        self.create(EntityKind::User, user, auth_header_value)
    }

    fn update_user(&self, user: &UserRequest, auth_header_value: String) -> (r: Result<
        Request,
        SftpgoError,
    >) {
        self.update(EntityKind::User, user, auth_header_value)
    }

    fn get_user(&self, username: &str, auth_header_value: String) -> (r: Result<Request, SftpgoError>) {
        self.get(EntityKind::User, username, auth_header_value)
    }

    fn delete_user(&self, username: &str, auth_header_value: String) -> (r: Result<
        Request,
        SftpgoError,
    >) {
        self.delete(EntityKind::User, username, auth_header_value)
    }
}

} // verus!

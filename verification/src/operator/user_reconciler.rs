//! The user resource as the reconciler sees it: permissions, virtual
//! folders and the request for the management API.

use crate::client::rest_client::EntityKind;
use crate::client::users::{
    folders_view, permissions_view, texts, UserRequest, UserRequestView, UserStatus,
};
use crate::client::virtual_folder_reference::{
    VirtualFolderReference as ClientVirtualFolderReference, VirtualFolderReferenceView,
};
use crate::crds::folder::SftpgoFolder;
use crate::crds::sftpgo_server_reference::ServerReference;
use crate::crds::sftpgo_status::SftpgoStatus;
use crate::crds::user::{
    DirectoryPermission, SftpgoUser, SftpgoUserConfiguration, SftpgoUserResourceStatus,
    SftpgoUserStatus, UserPermission,
};
use crate::crds::virtual_folder_reference::VirtualFolderReference;
use crate::kubernetes::ObjectMeta;
use crate::operator::filesystem::{calculate_file_system, file_system_model};
use crate::operator::reconciler::{Error, SftpgoResource};
use crate::string_map::StringMap;
use crate::text::concat;
use vstd::prelude::*;
use vstd::string::StringExecFns;

verus! {

/// The tokens of a list of user permissions.
pub open spec fn user_tokens(permissions: Seq<UserPermission>) -> Seq<Seq<char>> {
    permissions.map_values(|p: UserPermission| p.token())
}

/// The tokens at the root: those of the global permissions, or the one
/// token `*` where there are none.
pub open spec fn root_tokens(global: Seq<UserPermission>) -> Seq<Seq<char>> {
    if global.len() == 0 {
        seq!["*"@]
    } else {
        user_tokens(global)
    }
}

/// A permission map with the first `n` directories added, each under
/// its path; a later directory replaces an earlier one of the same
/// path.
pub open spec fn with_directories(
    base: Map<Seq<char>, Seq<Seq<char>>>,
    directories: Seq<DirectoryPermission>,
    n: nat,
) -> Map<Seq<char>, Seq<Seq<char>>>
    decreases n,
{
    if n == 0 || n > directories.len() {
        base
    } else {
        with_directories(base, directories, (n - 1) as nat).insert(
            directories[n - 1].path@,
            user_tokens(directories[n - 1].permissions@),
        )
    }
}

/// The directories of a configuration, where it lists any.
pub open spec fn directories_of(config: SftpgoUserConfiguration) -> Seq<DirectoryPermission> {
    match config.per_directory_permissions {
        Some(d) => d@,
        None => Seq::empty(),
    }
}

/// The permission map of a user: the root tokens under `/`, then every
/// directory under its path.
pub open spec fn permissions_of(config: SftpgoUserConfiguration) -> Map<Seq<char>, Seq<Seq<char>>> {
    with_directories(
        Map::<Seq<char>, Seq<Seq<char>>>::empty().insert("/"@, root_tokens(config.global_permissions@)),
        directories_of(config),
        directories_of(config).len(),
    )
}

fn tokens_of(permissions: &Vec<UserPermission>) -> (tokens: Vec<String>)
    ensures
        texts(tokens@) == user_tokens(permissions@),
{
    let mut tokens: Vec<String> = Vec::new();
    let mut i: usize = 0;
    while i < permissions.len()
        invariant
            i <= permissions.len(),
            texts(tokens@) == user_tokens(permissions@).take(i as int),
        decreases permissions.len() - i,
    {
        let token = permissions[i].to_string();
        proof {
            assert(texts(tokens@.push(token)) =~= texts(tokens@).push(token@));
            assert(user_tokens(permissions@).take(i as int).push(user_tokens(permissions@)[i as int])
                =~= user_tokens(permissions@).take(i + 1));
        }
        tokens.push(token);
        i += 1;
    }
    assert(user_tokens(permissions@).take(i as int) =~= user_tokens(permissions@));
    tokens
}

fn insert_tokens(permissions: &mut StringMap<Vec<String>>, path: String, tokens: Vec<String>)
    requires
        old(permissions).wf(),
    ensures
        final(permissions).wf(),
        permissions_view(*final(permissions)) == permissions_view(*old(permissions)).insert(
            path@,
            texts(tokens@),
        ),
{
    permissions.insert(path, tokens);
    proof {
        assert(permissions_view(*permissions) =~= permissions_view(*old(permissions)).insert(
            path@,
            texts(tokens@),
        ));
    }
}

/// The permission map of a user.
pub fn calculate_permissions(user_configuration: &SftpgoUserConfiguration) -> (permissions: StringMap<
    Vec<String>,
>)
    ensures
        permissions.wf(),
        permissions_view(permissions) == permissions_of(*user_configuration),
{
    let mut permissions: StringMap<Vec<String>> = StringMap::new();
    proof {
        assert(permissions_view(permissions) =~= Map::<Seq<char>, Seq<Seq<char>>>::empty());
    }
    let mut root_permissions = tokens_of(&user_configuration.global_permissions);
    proof {
        assert(texts(root_permissions@).len() == root_permissions@.len());
        assert(user_tokens(user_configuration.global_permissions@).len()
            == user_configuration.global_permissions@.len());
    }
    if root_permissions.len() == 0 {
        root_permissions.push(UserPermission::All.to_string());
        proof {
            assert(texts(root_permissions@) =~= seq!["*"@]);
        }
    }
    insert_tokens(&mut permissions, "/".to_owned(), root_permissions);
    let ghost base = permissions_view(permissions);

    if let Some(dir_permissions) = &user_configuration.per_directory_permissions {
        let mut i: usize = 0;
        while i < dir_permissions.len()
            invariant
                i <= dir_permissions.len(),
                permissions.wf(),
                permissions_view(permissions) == with_directories(base, dir_permissions@, i as nat),
            decreases dir_permissions.len() - i,
        {
            let dir_permission = &dir_permissions[i];
            let path_permissions = tokens_of(&dir_permission.permissions);
            insert_tokens(&mut permissions, dir_permission.path.clone(), path_permissions);
            i += 1;
        }
    }
    permissions
}

/// The namespace in which a virtual folder is looked up: the one that
/// the reference names, else that of the user.
pub open spec fn folder_namespace(namespace: Seq<char>, crd_ref: VirtualFolderReference) -> Seq<char> {
    match crd_ref.namespace {
        Some(ns) => ns@,
        None => namespace,
    }
}

/// The namespace in which a virtual folder is looked up.
pub fn get_virtual_folder_namespace<'a>(namespace: &'a str, crd_ref: &'a VirtualFolderReference) -> (ns:
    &'a str)
    ensures
        ns@ == folder_namespace(namespace@, *crd_ref),
{
    match &crd_ref.namespace {
        Some(ns) => ns.as_str(),
        None => namespace,
    }
}

/// The message for a virtual folder that does not exist.
pub open spec fn folder_missing_message(name: Seq<char>, namespace: Seq<char>) -> Seq<char> {
    "Virtual folder "@ + name + " not found in namespace "@ + namespace
}

/// What becomes of a reference to a virtual folder, given the folder
/// resource that was found for it, if any.
pub enum FolderResolution {
    /// The virtual folder as the management API takes it.
    Ready(VirtualFolderReferenceView),
    /// The folder has no identifier yet; the name of the resource.
    NotReady(Seq<char>),
    /// There is no such folder; the message.
    Missing(Seq<char>),
}

/// What becomes of a reference to a virtual folder: a folder that was
/// written to the server is referred to by the name it was last
/// written under, with the path and the quotas of the reference (0
/// where it names none); a folder without status or identifier is not
/// ready; no folder is an error of the declaration.
pub open spec fn resolve_folder(
    namespace: Seq<char>,
    crd_ref: VirtualFolderReference,
    folder: Option<SftpgoFolder>,
) -> FolderResolution {
    match folder {
        None => FolderResolution::Missing(
            folder_missing_message(crd_ref.name@, folder_namespace(namespace, crd_ref)),
        ),
        Some(f) => match f.status {
            None => FolderResolution::NotReady(crd_ref.name@),
            Some(status) => if status.folder_id is None {
                FolderResolution::NotReady(crd_ref.name@)
            } else {
                FolderResolution::Ready(
                    VirtualFolderReferenceView {
                        name: status.last_name@,
                        virtual_path: crd_ref.virtual_path@,
                        quota_size: match crd_ref.quota_size {
                            Some(q) => q,
                            None => 0,
                        },
                        quota_files: match crd_ref.quota_files {
                            Some(q) => q,
                            None => 0,
                        },
                    },
                )
            },
        },
    }
}

/// Whether `r` is the result that a resolution stands for.
pub open spec fn is_resolution(resolution: FolderResolution, r: Result<ClientVirtualFolderReference, Error>) -> bool {
    match resolution {
        FolderResolution::Ready(reference) => r matches Ok(x) && x@ == reference,
        FolderResolution::NotReady(name) => r matches Err(Error::NotReady(n)) && n@ == name,
        FolderResolution::Missing(message) => r matches Err(Error::UserInput(m)) && m@ == message,
    }
}

/// The virtual folder of a user as the management API takes it, given
/// the folder resource that was found for the reference, if any.
pub fn get_virtual_folder_reference(
    namespace: &str,
    crd_ref: &VirtualFolderReference,
    folder: Option<&SftpgoFolder>,
) -> (r: Result<ClientVirtualFolderReference, Error>)
    ensures
        is_resolution(
            resolve_folder(
                namespace@,
                *crd_ref,
                match folder {
                    Some(f) => Some(*f),
                    None => None,
                },
            ),
            r,
        ),
{
    let ns = get_virtual_folder_namespace(namespace, crd_ref);
    match folder {
        Some(folder) => match &folder.status {
            Some(status) => {
                if status.get_id().is_none() {
                    return Err(Error::NotReady(crd_ref.name.clone()));
                }
                let name = status.get_last_name();
                let folder_ref = ClientVirtualFolderReference {
                    name: name.to_owned(),
                    virtual_path: crd_ref.virtual_path.clone(),
                    quota_size: match crd_ref.quota_size {
                        Some(q) => q,
                        None => 0,
                    },
                    quota_files: match crd_ref.quota_files {
                        Some(q) => q,
                        None => 0,
                    },
                };
                Ok(folder_ref)
            },
            None => Err(Error::NotReady(crd_ref.name.clone())),
        },
        None => {
            let mut message = concat("Virtual folder ", crd_ref.name.as_str());
            message.append(" not found in namespace ");
            message.append(ns);
            Err(Error::UserInput(message))
        },
    }
}

/// A status of one kind as the status of another.
pub trait MapEnabled<To> {
    /// The status of the other kind.
    spec fn spec_map_enabled(&self) -> To;

    /// The status of the other kind.
    fn map_enabled(&self) -> (r: To)
        ensures
            r == self.spec_map_enabled(),
    ;
}

impl MapEnabled<UserStatus> for SftpgoUserStatus {
    open spec fn spec_map_enabled(&self) -> UserStatus {
        match self {
            SftpgoUserStatus::Disabled => UserStatus::Disabled,
            SftpgoUserStatus::Enabled => UserStatus::Enabled,
        }
    }

    fn map_enabled(&self) -> (r: UserStatus) {
        match self {
            SftpgoUserStatus::Disabled => UserStatus::Disabled,
            SftpgoUserStatus::Enabled => UserStatus::Enabled,
        }
    }
}

/// The status on the server for a declared one: enabled where the
/// resource does not say.
pub open spec fn map_status(enabled: Option<SftpgoUserStatus>) -> UserStatus {
    match enabled {
        Some(s) => s.spec_map_enabled(),
        None => UserStatus::Enabled,
    }
}

/// The user that the management API is asked to hold for a resource,
/// given its virtual folders as the API takes them.
pub open spec fn user_request_model(
    user: SftpgoUser,
    virtual_folders: Option<Seq<VirtualFolderReferenceView>>,
) -> UserRequestView {
    UserRequestView {
        status: map_status(user.spec.configuration.enabled),
        username: user.spec.configuration.username@,
        email: None,
        description: None,
        expiration_date: None,
        password: Some(user.spec.configuration.password@),
        public_keys: None,
        home_dir: user.spec.configuration.home_dir@,
        uid: None,
        gid: None,
        max_sessions: None,
        quota_size: None,
        quota_files: None,
        permissions: permissions_of(user.spec.configuration),
        upload_bandwidth: None,
        download_bandwidth: None,
        upload_data_transfer: None,
        download_data_transfer: None,
        total_data_transfer: None,
        filesystem: file_system_model(user.spec.configuration.filesystem),
        virtual_folders,
    }
}

/// The references of a user, where it lists any.
pub open spec fn references_of(user: SftpgoUser) -> Option<Seq<VirtualFolderReference>> {
    match user.spec.configuration.virtual_folders {
        Some(list) => Some(list@),
        None => None,
    }
}

/// The position of the first reference that does not resolve, if any.
pub open spec fn first_unresolved(
    namespace: Seq<char>,
    references: Seq<VirtualFolderReference>,
    folders: Seq<Option<SftpgoFolder>>,
    n: nat,
) -> Option<int>
    decreases n,
{
    if n == 0 || n > references.len() || n > folders.len() {
        None
    } else {
        match first_unresolved(namespace, references, folders, (n - 1) as nat) {
            Some(i) => Some(i),
            None => if resolve_folder(namespace, references[n - 1], folders[n - 1]) is Ready {
                None
            } else {
                Some(n - 1)
            },
        }
    }
}

/// The virtual folders of the first `n` references, all of which
/// resolve.
pub open spec fn resolved_folders(
    namespace: Seq<char>,
    references: Seq<VirtualFolderReference>,
    folders: Seq<Option<SftpgoFolder>>,
    n: nat,
) -> Seq<VirtualFolderReferenceView> {
    Seq::new(n, |i: int| resolve_folder(namespace, references[i], folders[i])->Ready_0)
}

impl SftpgoResource for SftpgoUser {
    type Status = SftpgoUserResourceStatus;

    open spec fn spec_name(&self) -> Seq<char> {
        self.spec.configuration.username@
    }

    open spec fn spec_metadata(&self) -> ObjectMeta {
        self.metadata
    }

    open spec fn spec_status(&self) -> Option<SftpgoUserResourceStatus> {
        self.status
    }

    open spec fn spec_server_reference(&self) -> ServerReference {
        self.spec.server_reference
    }

    open spec fn spec_kind() -> EntityKind {
        EntityKind::User
    }

    fn kind() -> (k: EntityKind) {
        EntityKind::User
    }

    fn get_name(&self) -> (name: &str) {
        self.spec.configuration.username.as_str()
    }

    fn get_metadata(&self) -> (meta: &ObjectMeta) {
        &self.metadata
    }

    fn get_server_reference(&self) -> (r: &ServerReference) {
        &self.spec.server_reference
    }

    fn get_status(&self) -> (status: &Option<SftpgoUserResourceStatus>) {
        &self.status
    }
}

impl SftpgoUser {
    /// The user that the management API is asked to hold, given the
    /// folder resource found for each of its references, in order
    /// (`None` where none was found).
    ///
    /// Where every reference resolves, the request holds the declared
    /// values, the permission map, the translated storage and the
    /// virtual folders. Else the result is the error of the first
    /// reference that does not resolve.
    pub fn get_request(&self, namespace: &str, folders: &Vec<Option<SftpgoFolder>>) -> (r: Result<
        UserRequest,
        Error,
    >)
        requires
            references_of(*self) matches Some(references) ==> folders@.len() == references.len(),
        ensures
            match references_of(*self) {
                None => r matches Ok(request) && request@ == user_request_model(*self, None)
                    && request.permissions.wf(),
                Some(references) => match first_unresolved(
                    namespace@,
                    references,
                    folders@,
                    references.len(),
                ) {
                    None => r matches Ok(request) && request@ == user_request_model(
                        *self,
                        Some(resolved_folders(namespace@, references, folders@, references.len())),
                    ) && request.permissions.wf(),
                    Some(i) => r is Err && is_resolution(
                        resolve_folder(namespace@, references[i], folders@[i]),
                        Err(r->Err_0),
                    ),
                },
            },
    {
        let user_configuration = &self.spec.configuration;
        let permissions = calculate_permissions(user_configuration);

        let virtual_folders = if let Some(references) = &self.spec.configuration.virtual_folders {
            let mut resolved: Vec<ClientVirtualFolderReference> = Vec::new();
            let mut i: usize = 0;
            while i < references.len()
                invariant
                    i <= references.len(),
                    references_of(*self) == Some(references@),
                    folders@.len() == references@.len(),
                    first_unresolved(namespace@, references@, folders@, i as nat) is None,
                    folders_view(resolved@) == resolved_folders(
                        namespace@,
                        references@,
                        folders@,
                        i as nat,
                    ),
                decreases references.len() - i,
            {
                let found = match &folders[i] {
                    Some(f) => Some(f),
                    None => None,
                };
                match get_virtual_folder_reference(namespace, &references[i], found) {
                    Ok(reference) => {
                        proof {
                            assert(folders_view(resolved@.push(reference)) =~= folders_view(
                                resolved@,
                            ).push(reference@));
                            assert(resolved_folders(namespace@, references@, folders@, i as nat).push(
                                reference@,
                            ) =~= resolved_folders(
                                namespace@,
                                references@,
                                folders@,
                                (i + 1) as nat,
                            ));
                        }
                        resolved.push(reference);
                    },
                    Err(e) => {
                        proof {
                            assert(first_unresolved(
                                namespace@,
                                references@,
                                folders@,
                                (i + 1) as nat,
                            ) == Some(i as int));
                            lemma_first_unresolved_stays(
                                namespace@,
                                references@,
                                folders@,
                                (i + 1) as nat,
                                references@.len(),
                            );
                        }
                        return Err(e);
                    },
                }
                i += 1;
            }
            Some(resolved)
        } else {
            None
        };

        let filesystem = match calculate_file_system(&user_configuration.filesystem) {
            Ok(fs) => fs,
            Err(e) => {
                return Err(e);
            },
        };
        let status = match &user_configuration.enabled {
            Some(status) => status.map_enabled(),
            None => UserStatus::Enabled,
        };
        let user_request = UserRequest {
            status,
            username: user_configuration.username.clone(),
            email: None,
            description: None,
            expiration_date: None,
            password: Some(user_configuration.password.clone()),
            public_keys: None,
            home_dir: user_configuration.home_dir.clone(),
            uid: None,
            gid: None,
            max_sessions: None,
            quota_size: None,
            quota_files: None,
            permissions,
            upload_bandwidth: None,
            download_bandwidth: None,
            upload_data_transfer: None,
            download_data_transfer: None,
            total_data_transfer: None,
            filesystem,
            virtual_folders,
        };
        Ok(user_request)
    }
}

/// Once a reference among the first `n` does not resolve, it is the
/// first unresolved of any longer prefix too.
pub proof fn lemma_first_unresolved_stays(
    namespace: Seq<char>,
    references: Seq<VirtualFolderReference>,
    folders: Seq<Option<SftpgoFolder>>,
    n: nat,
    m: nat,
)
    requires
        n <= m <= references.len(),
        m <= folders.len(),
        first_unresolved(namespace, references, folders, n) is Some,
    ensures
        first_unresolved(namespace, references, folders, m) == first_unresolved(
            namespace,
            references,
            folders,
            n,
        ),
    decreases m,
{
    if n < m {
        lemma_first_unresolved_stays(namespace, references, folders, n, (m - 1) as nat);
    }
}

} // verus!

use sftpgo_operator::client::filesystem::{
    FileSystemConfigAzureBlobStorageAccessTier, FileSystemConfigAzureBlobStorageAuthorization,
    FileSystemOsConfig, FileSystemProvider, SftpgoSecretStatus,
};
use sftpgo_operator::client::rest_client::EntityKind;
use sftpgo_operator::client::users::UserStatus;
use sftpgo_operator::crds::admin::{
    AdminPermission, SftpgoAdmin, SftpgoAdminConfiguration, SftpgoAdminSpec,
};
use sftpgo_operator::crds::filesystem::{
    AzureBlobStorageAccessTier, AzureBlobStorageAuthorization, FileSystem,
    FileSystemAzureBlobStorage,
};
use sftpgo_operator::crds::folder::{
    SftpgoFolder, SftpgoFolderConfiguration, SftpgoFolderResourceStatus, SftpgoFolderSpec,
};
use sftpgo_operator::crds::sftpgo_server_reference::ServerReference;
use sftpgo_operator::crds::user::{
    DirectoryPermission, SftpgoUser, SftpgoUserConfiguration, SftpgoUserSpec, SftpgoUserStatus,
    UserPermission,
};
use sftpgo_operator::crds::virtual_folder_reference::VirtualFolderReference;
use sftpgo_operator::kubernetes::ObjectMeta;
use sftpgo_operator::operator::filesystem::calculate_file_system;
use sftpgo_operator::operator::reconciler::{Error, SftpgoResource};
use sftpgo_operator::operator::triggers::list_users;
use sftpgo_operator::operator::user_reconciler::{
    calculate_permissions, get_virtual_folder_namespace, get_virtual_folder_reference, MapEnabled,
};

fn reference() -> ServerReference {
    ServerReference {
        name: Some("demo".to_string()),
        namespace: None,
        connection_secret: None,
        override_values: None,
    }
}

fn meta(name: &str, namespace: Option<&str>) -> ObjectMeta {
    ObjectMeta {
        name: Some(name.to_string()),
        namespace: namespace.map(|s| s.to_string()),
        ..Default::default()
    }
}

fn user(name: &str, namespace: Option<&str>, folders: Option<Vec<VirtualFolderReference>>) -> SftpgoUser {
    SftpgoUser {
        metadata: meta(name, namespace),
        spec: SftpgoUserSpec {
            configuration: SftpgoUserConfiguration {
                username: name.to_string(),
                password: "pw".to_string(),
                enabled: None,
                global_permissions: vec![],
                per_directory_permissions: None,
                filesystem: FileSystem::default(),
                home_dir: format!("/srv/{}", name),
                virtual_folders: folders,
            },
            disconnect_on_change: None,
            server_reference: reference(),
        },
        status: None,
    }
}

fn folder_reference(name: &str, namespace: Option<&str>) -> VirtualFolderReference {
    VirtualFolderReference {
        name: name.to_string(),
        namespace: namespace.map(|s| s.to_string()),
        virtual_path: format!("/{}", name),
        quota_size: None,
        quota_files: None,
    }
}

fn folder(name: &str, namespace: &str, status: Option<(&str, Option<i32>)>) -> SftpgoFolder {
    SftpgoFolder {
        metadata: meta(name, Some(namespace)),
        spec: SftpgoFolderSpec {
            configuration: SftpgoFolderConfiguration {
                name: name.to_string(),
                mapped_path: format!("/data/{}", name),
                description: Some("shared files".to_string()),
                filesystem: FileSystem::Local {
                    read_buffer_size: Some(4),
                    write_buffer_size: None,
                },
            },
            server_reference: reference(),
        },
        status: status.map(|(last_name, folder_id)| SftpgoFolderResourceStatus {
            last_name: last_name.to_string(),
            folder_id,
        }),
    }
}

#[test]
fn folder_not_ready() {
    let alice = user("alice", Some("files"), Some(vec![folder_reference("shared", None)]));

    let without_id = vec![Some(folder("shared", "files", Some(("shared", None))))];
    match alice.get_request("files", &without_id) {
        Err(Error::NotReady(name)) => assert_eq!(name, "shared"),
        other => panic!("unexpected result: {:?}", other),
    }

    let with_id = vec![Some(folder("shared", "files", Some(("shared", Some(3)))))];
    let request = alice.get_request("files", &with_id).unwrap();
    let folders = request.virtual_folders.unwrap();
    assert_eq!(folders.len(), 1);
    assert_eq!(folders[0].name, "shared");
    assert_eq!(folders[0].virtual_path, "/shared");
    assert_eq!(folders[0].quota_size, 0);
    assert_eq!(folders[0].quota_files, 0);
}

#[test]
fn a_folder_without_status_or_resource_does_not_resolve() {
    let crd_ref = folder_reference("shared", Some("other"));
    assert_eq!(get_virtual_folder_namespace("files", &crd_ref), "other");
    assert_eq!(
        get_virtual_folder_namespace("files", &folder_reference("shared", None)),
        "files"
    );

    let no_status = folder("shared", "other", None);
    assert!(matches!(
        get_virtual_folder_reference("files", &crd_ref, Some(&no_status)),
        Err(Error::NotReady(name)) if name == "shared"
    ));
    match get_virtual_folder_reference("files", &crd_ref, None) {
        Err(Error::UserInput(message)) => {
            assert_eq!(message, "Virtual folder shared not found in namespace other")
        }
        other => panic!("unexpected result: {:?}", other),
    }
}

#[test]
fn a_ready_folder_is_referred_to_by_its_recorded_name() {
    let mut crd_ref = folder_reference("shared", None);
    crd_ref.quota_size = Some(-1);
    crd_ref.quota_files = Some(100);
    let renamed = folder("shared", "files", Some(("team-share", Some(9))));
    let resolved = get_virtual_folder_reference("files", &crd_ref, Some(&renamed)).unwrap();
    assert_eq!(resolved.name, "team-share");
    assert_eq!(resolved.virtual_path, "/shared");
    assert_eq!(resolved.quota_size, -1);
    assert_eq!(resolved.quota_files, 100);
}

#[test]
fn the_first_unresolved_folder_decides_the_error() {
    let alice = user(
        "alice",
        Some("files"),
        Some(vec![
            folder_reference("a", None),
            folder_reference("b", None),
            folder_reference("c", None),
        ]),
    );
    let found = vec![
        Some(folder("a", "files", Some(("a", Some(1))))),
        None,
        Some(folder("c", "files", None)),
    ];
    assert!(matches!(
        alice.get_request("files", &found),
        Err(Error::UserInput(message)) if message == "Virtual folder b not found in namespace files"
    ));
}

#[test]
fn a_user_request_holds_the_declared_values() {
    let mut alice = user("alice", Some("files"), None);
    alice.spec.configuration.enabled = Some(SftpgoUserStatus::Disabled);
    let request = alice.get_request("files", &vec![]).unwrap();
    assert_eq!(request.username, "alice");
    assert_eq!(request.password, Some("pw".to_string()));
    assert_eq!(request.home_dir, "/srv/alice");
    assert_eq!(request.status, UserStatus::Disabled);
    assert!(request.virtual_folders.is_none());
    assert_eq!(request.email, None);
    assert_eq!(request.filesystem.provider, FileSystemProvider::LocalFilesystem);
    assert_eq!(
        request.permissions.get("/"),
        Some(&vec!["*".to_string()])
    );
    assert_eq!(request.permissions.len(), 1);

    let bob = user("bob", Some("files"), None);
    assert_eq!(
        bob.get_request("files", &vec![]).unwrap().status,
        UserStatus::Enabled
    );
    assert_eq!(bob.get_name(), "bob");
    assert_eq!(SftpgoUser::kind(), EntityKind::User);
    assert_eq!(bob.get_server_reference().name, Some("demo".to_string()));
}

#[test]
fn permissions_map_paths_to_tokens() {
    let mut alice = user("alice", Some("files"), None);
    alice.spec.configuration.global_permissions =
        vec![UserPermission::List, UserPermission::Download];
    alice.spec.configuration.per_directory_permissions = Some(vec![
        DirectoryPermission {
            path: "/in".to_string(),
            permissions: vec![UserPermission::Upload, UserPermission::CreateDirs],
        },
        DirectoryPermission {
            path: "/in".to_string(),
            permissions: vec![UserPermission::All],
        },
        DirectoryPermission {
            path: "/out".to_string(),
            permissions: vec![],
        },
    ]);
    let permissions = calculate_permissions(&alice.spec.configuration);
    assert_eq!(permissions.len(), 3);
    assert_eq!(
        permissions.get("/"),
        Some(&vec!["list".to_string(), "download".to_string()])
    );
    assert_eq!(permissions.get("/in"), Some(&vec!["*".to_string()]));
    assert_eq!(permissions.get("/out"), Some(&vec![]));

    alice.spec.configuration.per_directory_permissions = Some(vec![DirectoryPermission {
        path: "/".to_string(),
        permissions: vec![UserPermission::Chmod],
    }]);
    let overridden = calculate_permissions(&alice.spec.configuration);
    assert_eq!(overridden.get("/"), Some(&vec!["chmod".to_string()]));
}

#[test]
fn permission_tokens_are_snake_case() {
    assert_eq!(UserPermission::All.to_string(), "*");
    assert_eq!(UserPermission::CreateSymlinks.to_string(), "create_symlinks");
    assert_eq!(UserPermission::RenameFiles.to_string(), "rename_files");
    assert_eq!(UserPermission::Chtimes.to_string(), "chtimes");
    assert_eq!(AdminPermission::All.to_string(), "*");
    assert_eq!(AdminPermission::ManageIpLists.to_string(), "manage_ip_lists");
    assert_eq!(AdminPermission::ManageApikeys.to_string(), "manage_apikeys");
    assert_eq!(AdminPermission::ViewConns.to_string(), "view_conns");
    assert_eq!(AzureBlobStorageAccessTier::Hot.to_string(), "hot");
    assert_eq!(AzureBlobStorageAccessTier::Cool.to_string(), "cool");
    assert_eq!(AzureBlobStorageAccessTier::Archive.to_string(), "archive");
    assert_eq!(SftpgoUserStatus::Enabled.map_enabled(), UserStatus::Enabled);
    assert_eq!(SftpgoUserStatus::Disabled.map_enabled(), UserStatus::Disabled);
}

#[test]
fn an_administrator_request_holds_tokens_and_status() {
    let admin = SftpgoAdmin {
        metadata: meta("root", Some("files")),
        spec: SftpgoAdminSpec {
            configuration: SftpgoAdminConfiguration {
                username: "root".to_string(),
                description: Some("Root".to_string()),
                password: "pw".to_string(),
                enabled: Some(SftpgoUserStatus::Disabled),
                email: Some("root@example.net".to_string()),
                permissions: vec![AdminPermission::AddUsers, AdminPermission::ViewStatus],
                role: None,
            },
            server_reference: reference(),
        },
        status: None,
    };
    let request = admin.get_request().unwrap();
    assert_eq!(request.username, "root");
    assert_eq!(request.description, Some("Root".to_string()));
    assert_eq!(request.password, "pw");
    assert_eq!(request.email, Some("root@example.net".to_string()));
    assert_eq!(request.permissions, vec!["add_users", "view_status"]);
    assert_eq!(request.status, UserStatus::Disabled);
    assert_eq!(request.role, None);
    assert_eq!(SftpgoAdmin::kind(), EntityKind::Admin);
}

#[test]
fn a_folder_request_translates_the_storage() {
    let shared = folder("shared", "files", None);
    let request = shared.get_request().unwrap();
    assert_eq!(request.name, "shared");
    assert_eq!(request.mapped_path, Some("/data/shared".to_string()));
    assert_eq!(request.description, Some("shared files".to_string()));
    assert_eq!(request.filesystem.provider, FileSystemProvider::LocalFilesystem);
    assert_eq!(
        request.filesystem.os_config,
        Some(FileSystemOsConfig {
            read_buffer_size: Some(4),
            write_buffer_size: None
        })
    );
    assert!(request.filesystem.az_blob_config.is_none());
    assert_eq!(SftpgoFolder::kind(), EntityKind::Folder);
    assert_eq!(shared.get_name(), "shared");
}

#[test]
fn azure_secrets_are_sent_in_the_clear() {
    let blob = |authorization| {
        FileSystem::AzureBlobStorage(Box::new(FileSystemAzureBlobStorage {
            authorization,
            endpoint: Some("http://127.0.0.1:10000".to_string()),
            upload_part_size: Some(5),
            upload_concurrency: None,
            download_part_size: Some(6),
            download_concurrency: Some(2),
            access_tier: Some(AzureBlobStorageAccessTier::Cool),
            key_prefix: Some("team/".to_string()),
            use_emulator: Some(true),
        }))
    };
    let shared_key = calculate_file_system(&blob(AzureBlobStorageAuthorization::SharedKey {
        container: "files".to_string(),
        account_name: "acct".to_string(),
        account_key: "key".to_string(),
    }))
    .unwrap();
    assert_eq!(shared_key.provider, FileSystemProvider::AzureBlobStorage);
    assert!(shared_key.os_config.is_none());
    let config = shared_key.az_blob_config.unwrap();
    match config.auth {
        FileSystemConfigAzureBlobStorageAuthorization::SharedKey {
            account_name,
            container,
            account_key,
        } => {
            assert_eq!(account_name, "acct");
            assert_eq!(container, "files");
            assert_eq!(account_key.status, SftpgoSecretStatus::Plain);
            assert_eq!(account_key.payload, "key");
            assert_eq!(account_key.key, None);
            assert_eq!(account_key.additional_data, None);
            assert_eq!(account_key.mode, None);
        }
        other => panic!("unexpected authorization: {:?}", other),
    }
    assert_eq!(config.endpoint, Some("http://127.0.0.1:10000".to_string()));
    assert_eq!(config.upload_part_size, Some(5));
    assert_eq!(config.upload_concurrency, None);
    assert_eq!(config.download_part_size, Some(6));
    assert_eq!(config.download_concurrency, Some(2));
    assert_eq!(
        config.access_tier,
        Some(FileSystemConfigAzureBlobStorageAccessTier::Cool)
    );
    assert_eq!(config.key_prefix, Some("team/".to_string()));
    assert_eq!(config.use_emulator, Some(true));

    let signed = calculate_file_system(&blob(
        AzureBlobStorageAuthorization::SharedAccessSignatureUrl("https://sas".to_string()),
    ))
    .unwrap();
    match signed.az_blob_config.unwrap().auth {
        FileSystemConfigAzureBlobStorageAuthorization::SharedAccessSignatureUrl { sas_url } => {
            assert_eq!(sas_url.status, SftpgoSecretStatus::Plain);
            assert_eq!(sas_url.payload, "https://sas");
        }
        other => panic!("unexpected authorization: {:?}", other),
    }
}

#[test]
fn the_default_storage_is_local_without_buffers() {
    assert_eq!(
        FileSystem::default(),
        FileSystem::Local {
            read_buffer_size: Some(0),
            write_buffer_size: Some(0)
        }
    );
    let translated = calculate_file_system(&FileSystem::default()).unwrap();
    assert_eq!(
        translated.os_config,
        Some(FileSystemOsConfig {
            read_buffer_size: Some(0),
            write_buffer_size: Some(0)
        })
    );
}

#[test]
fn a_folder_change_concerns_the_users_that_refer_to_it() {
    let users = vec![
        user("same-ns", Some("files"), Some(vec![folder_reference("shared", None)])),
        user("other-name", Some("files"), Some(vec![folder_reference("private", None)])),
        user("explicit", Some("people"), Some(vec![folder_reference("shared", Some("files"))])),
        user("elsewhere", Some("people"), Some(vec![folder_reference("shared", None)])),
        user("none", Some("files"), None),
        user("no-namespace", None, Some(vec![folder_reference("shared", Some("files"))])),
        user(
            "second",
            Some("files"),
            Some(vec![
                folder_reference("private", None),
                folder_reference("shared", Some("other")),
                folder_reference("shared", None),
            ]),
        ),
    ];
    let changed = folder("shared", "files", None);
    let names: Vec<String> = list_users(&changed, &users)
        .into_iter()
        .map(|u| u.spec.configuration.username.clone())
        .collect();
    assert_eq!(names, vec!["same-ns", "explicit", "second"]);

    let mut unplaced = folder("shared", "files", None);
    unplaced.metadata.namespace = None;
    assert!(list_users(&unplaced, &users).is_empty());
}

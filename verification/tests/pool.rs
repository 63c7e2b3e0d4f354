use sftpgo_operator::client::admin_token::{
    AdminAccessToken, RefreshableAdminAuthContext, Timestamp,
};
use sftpgo_operator::crds::sftpgo_server_reference::{
    ConnectionOverride, ConnectionSecret, ServerReference,
};
use sftpgo_operator::operator::reconciler::Error;
use sftpgo_operator::operator::sftpgo_multi_client::{
    apply_overrides, get_admin_client, get_admin_secret_values, get_api_client, AdminSecret,
    ConnectionInfo, KnownSftpgoClient, SftpgoMultiClient,
};
use sftpgo_operator::string_map::StringMap;
use sftpgo_operator::text::{bool_to_string, i64_to_string, str_eq, u64_to_string};

fn context(token: &str) -> RefreshableAdminAuthContext {
    RefreshableAdminAuthContext::new(
        "admin".to_string(),
        "pw".to_string(),
        AdminAccessToken {
            access_token: token.to_string(),
            expires_at: Timestamp { seconds: 100, nanos: 0 },
        },
        Timestamp { seconds: 0, nanos: 0 },
    )
}

fn server_reference(
    name: Option<&str>,
    namespace: Option<&str>,
    secret: Option<(&str, Option<&str>)>,
) -> ServerReference {
    ServerReference {
        name: name.map(|s| s.to_string()),
        namespace: namespace.map(|s| s.to_string()),
        connection_secret: secret.map(|(name, namespace)| ConnectionSecret {
            name: name.to_string(),
            namespace: namespace.map(|s| s.to_string()),
        }),
        override_values: None,
    }
}

fn secret(entries: &[(&str, &[u8])]) -> AdminSecret {
    let mut data = StringMap::new();
    for (key, value) in entries {
        data.insert(key.to_string(), value.to_vec());
    }
    AdminSecret {
        uid: "uid-9".to_string(),
        data: Some(data),
    }
}

fn complete_secret() -> AdminSecret {
    secret(&[
        ("url", b"http://demo.files.svc:8080"),
        ("username", b"managed_admin_x"),
        ("password", b"pw"),
    ])
}

fn user_input(result: Result<ConnectionInfo, Error>) -> String {
    match result {
        Err(Error::UserInput(message)) => message,
        other => panic!("unexpected result: {:?}", other),
    }
}

#[test]
fn a_server_name_means_its_admin_secret() {
    let location = get_api_client(&server_reference(Some("demo"), None, None), "files").unwrap();
    assert_eq!(location.namespace, "files");
    assert_eq!(location.name, "demo-admin-user");
    let location = get_api_client(&server_reference(Some("demo"), Some("infra"), None), "files").unwrap();
    assert_eq!(location.namespace, "infra");
    assert_eq!(location.name, "demo-admin-user");
}

#[test]
fn a_connection_secret_is_used_as_it_is_named() {
    let location =
        get_api_client(&server_reference(None, None, Some(("conn", None))), "files").unwrap();
    assert_eq!(location.namespace, "files");
    assert_eq!(location.name, "conn");
    let location =
        get_api_client(&server_reference(None, None, Some(("conn", Some("infra")))), "files").unwrap();
    assert_eq!(location.namespace, "infra");
    assert_eq!(location.name, "conn");
}

#[test]
fn a_reference_names_exactly_one_target() {
    match get_api_client(&server_reference(Some("demo"), None, Some(("conn", None))), "files") {
        Err(Error::UserInput(message)) => assert_eq!(
            message,
            "Both connectionSecret and name are set. Only one of them can be specified"
        ),
        other => panic!("unexpected result: {:?}", other),
    }
    match get_api_client(&server_reference(None, Some("infra"), None), "files") {
        Err(Error::UserInput(message)) => {
            assert_eq!(message, "Either connectionSecret or name must be set")
        }
        other => panic!("unexpected result: {:?}", other),
    }
}

#[test]
fn connection_values_come_from_the_secret() {
    let found = complete_secret();
    let info = get_admin_secret_values(Some(&found), "files", "demo-admin-user", &None).unwrap();
    assert_eq!(info.url, "http://demo.files.svc:8080/");
    assert_eq!(info.username, "managed_admin_x");
    assert_eq!(info.password, "pw");
    assert_eq!(info.uid, "uid-9");
}

#[test]
fn a_secret_has_to_exist_and_be_complete() {
    assert_eq!(
        user_input(get_admin_secret_values(None, "files", "conn", &None)),
        "Secret conn not found in namespace files"
    );
    let empty = AdminSecret {
        uid: "u".to_string(),
        data: None,
    };
    assert_eq!(
        user_input(get_admin_secret_values(Some(&empty), "files", "conn", &None)),
        "Secret conn does not contain data"
    );
    let partial = secret(&[("url", b"http://x"), ("username", b"n")]);
    assert_eq!(
        user_input(get_admin_secret_values(Some(&partial), "files", "conn", &None)),
        "Secret conn does not contain all required keys. Expected 'username', 'url' and 'password'"
    );
    let garbled = secret(&[("url", b"http://x"), ("username", &[0xff, 0xfe]), ("password", b"p")]);
    assert_eq!(
        user_input(get_admin_secret_values(Some(&garbled), "files", "conn", &None)),
        "Secret contains invalid UTF-8"
    );
    let no_url = secret(&[("url", b"not a url"), ("username", b"n"), ("password", b"p")]);
    assert!(
        user_input(get_admin_secret_values(Some(&no_url), "files", "conn", &None))
            .starts_with("Secret conn contains invalid URL: ")
    );
}

#[test]
fn overrides_replace_what_the_secret_holds() {
    let found = complete_secret();
    let overrides = Some(ConnectionOverride {
        url: Some("https://public.example.net".to_string()),
        username: None,
        password: Some("other".to_string()),
    });
    let info = get_admin_secret_values(Some(&found), "files", "conn", &overrides).unwrap();
    assert_eq!(info.url, "https://public.example.net/");
    assert_eq!(info.username, "managed_admin_x");
    assert_eq!(info.password, "other");
    assert_eq!(info.uid, "uid-9");

    let broken = Some(ConnectionOverride {
        url: Some("::".to_string()),
        username: Some("n".to_string()),
        password: None,
    });
    assert!(
        user_input(get_admin_secret_values(Some(&found), "files", "conn", &broken))
            .starts_with("Override contains invalid URL: ")
    );

    let info = ConnectionInfo {
        url: "http://a/".to_string(),
        username: "n".to_string(),
        password: "p".to_string(),
        uid: "u".to_string(),
    };
    let only_name = Some(ConnectionOverride {
        url: None,
        username: Some("m".to_string()),
        password: None,
    });
    let changed = apply_overrides(info, &only_name, None).unwrap();
    assert_eq!(changed.url, "http://a/");
    assert_eq!(changed.username, "m");
    assert_eq!(changed.password, "p");
}

#[test]
fn the_pool_keeps_one_client_per_server_and_administrator() {
    let mut pool = SftpgoMultiClient::new();
    assert!(pool.clients.is_empty());
    pool.get_client("uid-1", "http://one/".to_string());
    pool.get_client("uid-2", "http://two/".to_string());
    pool.get_client("uid-1", "http://ignored/".to_string());
    assert_eq!(pool.clients.len(), 2);
    assert_eq!(pool.clients.get("uid-1").unwrap().client.base_url, "http://one/");

    assert!(pool.get_authorized_client("uid-1", "admin").is_none());
    assert!(pool.get_authorized_client("uid-3", "admin").is_none());
    pool.insert_authorized_client("uid-1", "admin", context("t1"));
    let cached = pool.get_authorized_client("uid-1", "admin").unwrap();
    assert_eq!(cached.client.base_url, "http://one/");
    assert_eq!(cached.auth_context.token.access_token, "t1");
    assert!(pool.get_authorized_client("uid-2", "admin").is_none());
    assert!(pool.get_authorized_client("uid-1", "other").is_none());

    pool.insert_authorized_client("uid-1", "other", context("t2"));
    assert_eq!(
        pool.get_authorized_client("uid-1", "admin")
            .unwrap()
            .auth_context
            .token
            .access_token,
        "t1"
    );
    assert_eq!(
        pool.get_authorized_client("uid-1", "other")
            .unwrap()
            .auth_context
            .token
            .access_token,
        "t2"
    );
    assert_eq!(pool.clients.len(), 2);
    assert_eq!(pool.clients.get("uid-2").unwrap().client.base_url, "http://two/");

    pool.invalidate("uid-1", "admin");
    assert!(pool.get_authorized_client("uid-1", "admin").is_none());
    assert!(pool.get_authorized_client("uid-1", "other").is_some());
    assert_eq!(pool.clients.get("uid-1").unwrap().client.base_url, "http://one/");
    pool.invalidate("uid-3", "admin");
    assert_eq!(pool.clients.len(), 2);
}

#[test]
fn an_admin_client_is_looked_up_by_secret_and_name() {
    let mut pool = SftpgoMultiClient::new();
    let info = ConnectionInfo {
        url: "http://one/".to_string(),
        username: "admin".to_string(),
        password: "pw".to_string(),
        uid: "uid-1".to_string(),
    };
    assert!(get_admin_client(&mut pool, &info).is_none());
    assert_eq!(pool.clients.len(), 1);
    pool.insert_authorized_client("uid-1", "admin", context("t1"));
    let client = get_admin_client(&mut pool, &info).unwrap();
    assert_eq!(client.auth_context.creds.username, "admin");
    assert_eq!(pool.clients.len(), 1);
}

#[test]
fn a_known_client_starts_without_authorized_clients() {
    let mut known = KnownSftpgoClient::new("http://one/".to_string());
    assert_eq!(known.client.base_url, "http://one/");
    assert!(known.get_authorized_client("admin").is_none());
    known.insert_authorized_client("admin", context("t"));
    assert!(known.get_authorized_client("admin").is_some());
    assert_eq!(known.authorized_clients.len(), 1);
}

#[test]
fn text_maps_insert_replace_and_remove() {
    let mut map: StringMap<i32> = StringMap::new();
    assert!(map.is_empty());
    assert_eq!(map.get("a"), None);
    map.insert("a".to_string(), 1);
    map.insert("b".to_string(), 2);
    map.insert("a".to_string(), 3);
    assert_eq!(map.len(), 2);
    assert_eq!(map.get("a"), Some(&3));
    assert_eq!(map.get("b"), Some(&2));
    assert!(map.contains_key("b"));
    assert!(!map.contains_key("c"));
    assert_eq!(map.find("b"), Some(1));
    assert_eq!(map.entries[0].0, "a");
    assert_eq!(map.remove("a"), Some(3));
    assert_eq!(map.remove("a"), None);
    assert_eq!(map.len(), 1);
    assert_eq!(map.get("b"), Some(&2));
}

#[test]
fn numbers_render_in_decimal() {
    assert_eq!(u64_to_string(0), "0");
    assert_eq!(u64_to_string(9), "9");
    assert_eq!(u64_to_string(10), "10");
    assert_eq!(u64_to_string(1234567890), "1234567890");
    assert_eq!(u64_to_string(u64::MAX), u64::MAX.to_string());
    assert_eq!(i64_to_string(-1), "-1");
    assert_eq!(i64_to_string(i64::MIN), i64::MIN.to_string());
    assert_eq!(i64_to_string(i64::MAX), i64::MAX.to_string());
    assert_eq!(bool_to_string(true), "true");
    assert_eq!(bool_to_string(false), "false");
    assert_eq!(sftpgo_operator::text::concat("ab", "cd"), "abcd");
    assert!(str_eq("x", "x"));
    assert!(!str_eq("x", "y"));
}

#[test]
fn default_gives_the_default_value() {
    let number: i32 = sftpgo_operator::default();
    assert_eq!(number, 0);
    let text: String = sftpgo_operator::default();
    assert_eq!(text, "");
    let list: Vec<u8> = sftpgo_operator::default();
    assert!(list.is_empty());
}

use sftpgo_operator::client::admin_token::{
    clamped_token_expiry, create_admin_access_token, AdminAccessToken,
    RefreshableAdminAuthContext, Timestamp,
};
use sftpgo_operator::client::auth::{
    basic_auth_header_from_encoded, create_basic_auth_header, create_bearer_auth_header,
    AuthContext,
};
use sftpgo_operator::client::client::{
    endpoint_url, AuthorizedSftpgoClient, AuthorizedSftpgoClientBase, SftpgoClient,
    SftpgoClientBase,
};
use sftpgo_operator::client::error_response::{
    expected_payload, handle_response, judge, Attempt, GenericResponseBody, Payload, PayloadKind,
    SftpgoError, Verdict,
};
use sftpgo_operator::client::filesystem::FileSystemProvider;
use sftpgo_operator::client::rest_client::{
    delete_outcome, endpoint, expected_payload_for, get_outcome, EntityKind, Existing, Method,
    Named, Operation,
};
use sftpgo_operator::client::users::{UserRequest, UserResponse, UserStatus, UsersClient};

fn body(message: &str) -> GenericResponseBody {
    GenericResponseBody {
        message: Some(message.to_string()),
        error: None,
    }
}

fn at(seconds: i64) -> Timestamp {
    Timestamp { seconds, nanos: 0 }
}

#[test]
fn is_send_and_sync() {
    fn is_send<T: Send>() {}
    fn is_sync<T: Sync>() {}
    is_send::<SftpgoClient>();
    is_sync::<SftpgoClient>();
    is_send::<AuthorizedSftpgoClient<RefreshableAdminAuthContext>>();
    is_sync::<AuthorizedSftpgoClient<RefreshableAdminAuthContext>>();
}

#[test]
fn basic_header_encodes_name_and_password() {
    assert_eq!(
        create_basic_auth_header("admin", "secret"),
        "Basic YWRtaW46c2VjcmV0"
    );
    assert_eq!(create_basic_auth_header("", ""), "Basic Og==");
    assert_eq!(basic_auth_header_from_encoded("abc"), "Basic abc");
}

#[test]
fn bearer_header_carries_the_token() {
    assert_eq!(create_bearer_auth_header("tok"), "Bearer tok");
    assert_eq!(create_bearer_auth_header(""), "Bearer ");
}

#[test]
fn endpoints_follow_the_kind() {
    assert_eq!(endpoint(EntityKind::User, None), "/api/v2/users");
    assert_eq!(endpoint(EntityKind::Folder, None), "/api/v2/folders");
    assert_eq!(endpoint(EntityKind::Admin, None), "/api/v2/admins");
    assert_eq!(
        endpoint(EntityKind::User, Some("alice")),
        "/api/v2/users/alice"
    );
    assert_eq!(
        Operation::Create.endpoint(EntityKind::Admin, "root"),
        "/api/v2/admins"
    );
    assert_eq!(
        Operation::Update.endpoint(EntityKind::Admin, "root"),
        "/api/v2/admins/root"
    );
}

#[test]
fn urls_are_joined_to_the_base() {
    let client = SftpgoClient::new("http://sftpgo.default.svc:8080".to_string());
    assert_eq!(
        client.url_for("/api/v2/token").unwrap(),
        "http://sftpgo.default.svc:8080/api/v2/token"
    );
    let nested = SftpgoClient::new("https://example.net/a/b.html".to_string());
    assert_eq!(
        nested.url_for("c.png").unwrap(),
        "https://example.net/a/c.png"
    );
}

#[test]
fn a_base_that_is_no_url_fails_to_build() {
    let client = SftpgoClient::new("not a url".to_string());
    assert!(matches!(
        client.url_for("/api/v2/users"),
        Err(SftpgoError::UrlBuildingFailed(_))
    ));
    assert!(matches!(
        endpoint_url(Err("boom".to_string())),
        Err(SftpgoError::UrlBuildingFailed(m)) if m == "boom"
    ));
    assert_eq!(endpoint_url(Ok("http://x/".to_string())).unwrap(), "http://x/");
}

#[test]
fn requests_carry_method_url_and_header() {
    let client = SftpgoClient::new("http://host:8080/".to_string());
    let authorized = client.with_auth_context(());
    let user = UserRequest {
        username: "alice".to_string(),
        ..Default::default()
    };
    assert_eq!(user.name(), "alice");

    let create = authorized
        .create(EntityKind::User, &user, "Bearer t".to_string())
        .unwrap();
    assert_eq!(create.method, Method::Post);
    assert_eq!(create.url, "http://host:8080/api/v2/users");
    assert_eq!(create.authorization, "Bearer t");
    assert!(create.sends_body);

    let update = authorized
        .update(EntityKind::User, &user, "Bearer t".to_string())
        .unwrap();
    assert_eq!(update.method, Method::Put);
    assert_eq!(update.url, "http://host:8080/api/v2/users/alice");
    assert!(update.sends_body);

    let delete = authorized
        .delete(EntityKind::Folder, "shared", "Bearer t".to_string())
        .unwrap();
    assert_eq!(delete.method, Method::Delete);
    assert_eq!(delete.url, "http://host:8080/api/v2/folders/shared");
    assert!(!delete.sends_body);

    let get = authorized
        .get(EntityKind::Admin, "root", "Bearer t".to_string())
        .unwrap();
    assert_eq!(get.method, Method::Get);
    assert_eq!(get.url, "http://host:8080/api/v2/admins/root");
    assert!(!get.sends_body);

    assert_eq!(
        authorized.get_url(EntityKind::Admin, None).unwrap(),
        "http://host:8080/api/v2/admins"
    );
    assert_eq!(
        authorized.url_for("/api/v2/token").unwrap(),
        "http://host:8080/api/v2/token"
    );
    assert_eq!(authorized.get_auth_context(), &());
}

#[test]
fn the_token_request_uses_basic_credentials() {
    let client = SftpgoClient::new("http://host:8080/".to_string());
    let request = create_admin_access_token(&client, "admin", "secret").unwrap();
    assert_eq!(request.method, Method::Get);
    assert_eq!(request.url, "http://host:8080/api/v2/token");
    assert_eq!(request.authorization, "Basic YWRtaW46c2VjcmV0");
    assert!(!request.sends_body);
}

#[test]
fn the_status_decides_how_a_body_is_read() {
    assert_eq!(expected_payload(200), PayloadKind::Entity);
    assert_eq!(expected_payload(201), PayloadKind::Entity);
    assert_eq!(expected_payload(302), PayloadKind::Entity);
    assert_eq!(expected_payload(400), PayloadKind::Generic);
    assert_eq!(expected_payload(401), PayloadKind::Generic);
    assert_eq!(expected_payload(500), PayloadKind::Generic);
    assert_eq!(expected_payload(404), PayloadKind::Unread);
    assert_eq!(expected_payload(503), PayloadKind::Unread);
    assert_eq!(expected_payload_for(Operation::Get, 404), PayloadKind::Unread);
    assert_eq!(expected_payload_for(Operation::Get, 200), PayloadKind::Entity);
    assert_eq!(expected_payload_for(Operation::Delete, 200), PayloadKind::Unread);
    assert_eq!(expected_payload_for(Operation::Delete, 404), PayloadKind::Unread);
    assert_eq!(expected_payload_for(Operation::Delete, 401), PayloadKind::Generic);
    assert_eq!(expected_payload_for(Operation::Create, 404), PayloadKind::Unread);
}

#[test]
fn answers_become_results() {
    assert_eq!(handle_response(200, Payload::Entity(7)).unwrap(), 7);
    assert!(matches!(
        handle_response::<i32>(401, Payload::Generic(body("no"))),
        Err(SftpgoError::Unauthorized(b)) if b == body("no")
    ));
    assert!(matches!(
        handle_response::<i32>(400, Payload::Generic(body("bad"))),
        Err(SftpgoError::BadRequest(b)) if b == body("bad")
    ));
    assert!(matches!(
        handle_response::<i32>(500, Payload::Generic(body("oops"))),
        Err(SftpgoError::InternalServerError(b)) if b == body("oops")
    ));
    assert!(matches!(
        handle_response::<i32>(404, Payload::Generic(body("gone"))),
        Err(SftpgoError::ReqwestError(_))
    ));
    assert!(matches!(
        handle_response::<i32>(200, Payload::Undecodable("eof".to_string())),
        Err(SftpgoError::ReqwestError(m)) if m == "eof"
    ));
    assert!(matches!(
        handle_response::<i32>(200, Payload::Generic(body("?"))),
        Err(SftpgoError::ReqwestError(_))
    ));
    assert!(matches!(
        handle_response::<i32>(401, Payload::Entity(1)),
        Err(SftpgoError::ReqwestError(_))
    ));
}

#[test]
fn a_missing_entity_is_absent_and_deleted() {
    assert!(matches!(
        get_outcome::<i32>(404, Payload::Undecodable("unread".to_string())),
        Ok(None)
    ));
    assert!(matches!(get_outcome(200, Payload::Entity(3)), Ok(Some(3))));
    assert!(matches!(
        get_outcome::<i32>(401, Payload::Generic(body("no"))),
        Err(SftpgoError::Unauthorized(_))
    ));
    assert!(delete_outcome(404, Payload::Undecodable("unread".to_string())).is_ok());
    assert!(delete_outcome(200, Payload::Undecodable("unread".to_string())).is_ok());
    assert!(matches!(
        delete_outcome(500, Payload::Generic(body("oops"))),
        Err(SftpgoError::InternalServerError(_))
    ));
    assert!(delete_outcome(204, Payload::Entity(())).is_ok());
}

#[test]
fn wire_codes_match_the_api() {
    assert_eq!(UserStatus::Disabled.code(), 0);
    assert_eq!(UserStatus::Enabled.code(), 1);
    assert_eq!(UserStatus::from_code(1), Some(UserStatus::Enabled));
    assert_eq!(UserStatus::from_code(2), None);
    assert_eq!(FileSystemProvider::LocalFilesystem.code(), 0);
    assert_eq!(FileSystemProvider::AzureBlobStorage.code(), 3);
    assert_eq!(FileSystemProvider::Http.code(), 6);
    assert_eq!(
        FileSystemProvider::from_code(5),
        Some(FileSystemProvider::Sftp)
    );
    assert_eq!(FileSystemProvider::from_code(7), None);
    let response = UserResponse {
        id: 7,
        username: "alice".to_string(),
        ..Default::default()
    };
    assert_eq!(response.id(), 7);
    assert_eq!(Existing::name(&response), "alice");
}

#[test]
fn instants_are_ordered_by_seconds_then_nanoseconds() {
    let a = Timestamp { seconds: 10, nanos: 5 };
    let b = Timestamp { seconds: 10, nanos: 6 };
    let c = Timestamp { seconds: 11, nanos: 0 };
    assert!(b.is_after(&a));
    assert!(!a.is_after(&b));
    assert!(!a.is_after(&a));
    assert!(c.is_after(&b));
    assert_eq!(Timestamp::earliest(a, c), a);
    assert_eq!(Timestamp::earliest(c, a), a);
    assert_eq!(a.plus_seconds(30), Timestamp { seconds: 40, nanos: 5 });
    assert_eq!(
        at(i64::MAX - 1).plus_seconds(30),
        Timestamp { seconds: i64::MAX, nanos: 0 }
    );
}

#[test]
fn a_stored_expiry_is_at_most_thirty_seconds_away() {
    assert_eq!(clamped_token_expiry(at(10_000), at(1_000)), at(1_030));
    assert_eq!(clamped_token_expiry(at(1_010), at(1_000)), at(1_010));
    assert_eq!(clamped_token_expiry(at(900), at(1_000)), at(900));

    let token = AdminAccessToken {
        access_token: "first".to_string(),
        expires_at: at(5_000),
    };
    let context =
        RefreshableAdminAuthContext::new("admin".to_string(), "pw".to_string(), token, at(1_000));
    assert_eq!(context.token.expires_at, at(1_030));
    assert_eq!(
        context.get_auth_header_value(at(1_029)),
        Some("Bearer first".to_string())
    );
    assert_eq!(context.get_auth_header_value(at(1_030)), None);
    assert_eq!(context.get_auth_header_value(at(2_000)), None);
    assert_eq!(
        context.create_admin_access_token_header(),
        "Basic YWRtaW46cHc="
    );
}

#[test]
fn an_expired_token_is_exchanged_once_for_many_callers() {
    let token = AdminAccessToken {
        access_token: "old".to_string(),
        expires_at: at(1_000),
    };
    let mut context =
        RefreshableAdminAuthContext::new("admin".to_string(), "pw".to_string(), token, at(990));
    let now = at(1_000);
    let mut exchanges = 0;
    let mut headers = Vec::new();
    for _ in 0..100 {
        let header = match context.get_auth_header_value(now) {
            Some(header) => header,
            None => {
                exchanges += 1;
                let fresh = AdminAccessToken {
                    access_token: "new".to_string(),
                    expires_at: at(4_600),
                };
                context.store_token(fresh, now)
            }
        };
        headers.push(header);
    }
    assert_eq!(exchanges, 1);
    assert_eq!(headers.len(), 100);
    assert!(headers.iter().all(|h| h == "Bearer new"));
    assert_eq!(context.token.expires_at, at(1_030));
}

#[test]
fn the_clock_only_decides_whether_a_token_is_used() {
    let far = AdminAccessToken {
        access_token: "live".to_string(),
        expires_at: at(i64::MAX),
    };
    let mut context =
        RefreshableAdminAuthContext::new("a".to_string(), "b".to_string(), far, at(i64::MAX - 100));
    assert_eq!(context.token.expires_at, at(i64::MAX - 70));
    assert_eq!(
        context.get_current_auth_header_value(),
        Some("Bearer live".to_string())
    );
    let past = AdminAccessToken {
        access_token: "dead".to_string(),
        expires_at: at(0),
    };
    let header = context.store_token_now(past);
    assert_eq!(header, "Bearer dead");
    assert_eq!(context.token.expires_at, at(0));
    assert_eq!(context.get_current_auth_header_value(), None);
}

#[test]
fn a_refused_token_is_replaced_once() {
    let refused = || Err::<i32, SftpgoError>(SftpgoError::Unauthorized(body("no")));
    assert!(matches!(judge(Attempt::First, refused()), Verdict::Retry));
    assert!(matches!(
        judge(Attempt::Second, refused()),
        Verdict::Settled(Err(SftpgoError::ReqwestError(_)))
    ));
    assert!(matches!(
        judge(Attempt::First, Ok::<i32, SftpgoError>(5)),
        Verdict::Settled(Ok(5))
    ));
    assert!(matches!(
        judge(Attempt::Second, Ok::<i32, SftpgoError>(6)),
        Verdict::Settled(Ok(6))
    ));
    assert!(matches!(
        judge::<i32>(Attempt::First, Err(SftpgoError::BadRequest(body("bad")))),
        Verdict::Settled(Err(SftpgoError::BadRequest(_)))
    ));
    assert!(matches!(
        judge::<i32>(Attempt::Second, Err(SftpgoError::InternalServerError(body("oops")))),
        Verdict::Settled(Err(SftpgoError::InternalServerError(_)))
    ));
}

#[test]
fn user_requests_go_to_the_users_endpoint() {
    let client = SftpgoClient::new("http://host:8080/".to_string()).with_auth_context(());
    let user = UserRequest {
        username: "alice".to_string(),
        ..Default::default()
    };
    let added = client.add_user(&user, "Bearer t".to_string()).unwrap();
    assert_eq!(added.method, Method::Post);
    assert_eq!(added.url, "http://host:8080/api/v2/users");
    let updated = client.update_user(&user, "Bearer t".to_string()).unwrap();
    assert_eq!(updated.method, Method::Put);
    assert_eq!(updated.url, "http://host:8080/api/v2/users/alice");
    let fetched = client.get_user("alice", "Bearer t".to_string()).unwrap();
    assert_eq!(fetched.method, Method::Get);
    assert_eq!(fetched.url, "http://host:8080/api/v2/users/alice");
    let deleted = client.delete_user("alice", "Bearer t".to_string()).unwrap();
    assert_eq!(deleted.method, Method::Delete);
    assert_eq!(deleted.authorization, "Bearer t");
}

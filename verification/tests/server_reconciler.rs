use sftpgo_operator::crds::server::{
    Common, Ftpd, FtpdBinding, Httpd, HttpdBinding, PassivePortRange, Sftpd, SftpdBinding,
    SftpgoConfiguration, SftpgoServer, SftpgoServerSpec, UploadMode,
};
use sftpgo_operator::kubernetes::{ChildMeta, ObjectMeta, Secret};
use sftpgo_operator::operator::reconciler::{Action, Error};
use sftpgo_operator::operator::sftpgo_server_reconciler::{
    checked_port, deleted, reconcile_sftpgo_server, DeploymentController, SecretPlan,
    ServerCommand, ServerEvent, ServerPhase, ServerReconciliation, DEFAULT_IMAGE, FIELD_MANAGER,
};
use sftpgo_operator::string_map::StringMap;

fn server(name: &str, spec: SftpgoServerSpec) -> SftpgoServer {
    SftpgoServer {
        metadata: ObjectMeta {
            name: Some(name.to_string()),
            namespace: Some("files".to_string()),
            uid: Some("uid-1".to_string()),
            finalizers: Some(vec!["sftpgo.zlepper.dk/finalizer".to_string()]),
            ..Default::default()
        },
        spec,
    }
}

fn controller(spec: SftpgoServerSpec) -> DeploymentController {
    DeploymentController::new(server("demo", spec)).unwrap()
}

fn scenario_configuration() -> SftpgoConfiguration {
    SftpgoConfiguration {
        httpd: Some(Httpd {
            bindings: Some(vec![HttpdBinding {
                port: Some(9000),
                ..Default::default()
            }]),
            ..Default::default()
        }),
        sftpd: Some(Sftpd {
            bindings: Some(vec![SftpdBinding {
                port: Some(2022),
                ..Default::default()
            }]),
            ..Default::default()
        }),
        ftpd: Some(Ftpd {
            bindings: Some(vec![FtpdBinding {
                port: Some(21),
                ..Default::default()
            }]),
            passive_port_range: Some(PassivePortRange {
                start: Some(30000),
                end: Some(30002),
            }),
            ..Default::default()
        }),
        ..Default::default()
    }
}

fn port_names(controller: &DeploymentController) -> Vec<String> {
    controller
        .get_expected_ports()
        .into_iter()
        .map(|p| p.name.unwrap())
        .collect()
}

fn label(map: &StringMap<String>, key: &str) -> Option<String> {
    map.get(key).cloned()
}

fn existing_secret(url: &str) -> Secret {
    let mut data = StringMap::new();
    data.insert("url".to_string(), url.to_string());
    data.insert("username".to_string(), "managed_admin_abc".to_string());
    data.insert("password".to_string(), "pw".to_string());
    Secret {
        metadata: ChildMeta {
            name: "demo-admin-user".to_string(),
            ..Default::default()
        },
        string_data: data,
    }
}

#[test]
fn server_instance_port_set() {
    let controller = controller(SftpgoServerSpec {
        configuration: Some(scenario_configuration()),
        ..Default::default()
    });
    assert_eq!(
        port_names(&controller),
        vec![
            "http-9000",
            "sftp-2022",
            "ftp-21",
            "ftp-data-30000",
            "ftp-data-30001",
            "ftp-data-30002"
        ]
    );
    let numbers: Vec<i64> = controller
        .get_expected_ports()
        .iter()
        .map(|p| p.container_port)
        .collect();
    assert_eq!(numbers, vec![9000, 2022, 21, 30000, 30001, 30002]);
}

#[test]
fn ports_default_where_nothing_is_configured() {
    let bare = controller(SftpgoServerSpec::default());
    assert_eq!(port_names(&bare), vec!["http-8080"]);

    let empty_bindings = controller(SftpgoServerSpec {
        configuration: Some(SftpgoConfiguration {
            httpd: Some(Httpd {
                bindings: Some(vec![]),
                ..Default::default()
            }),
            sftpd: Some(Sftpd {
                bindings: Some(vec![SftpdBinding::default()]),
                ..Default::default()
            }),
            ftpd: Some(Ftpd {
                bindings: Some(vec![FtpdBinding::default()]),
                ..Default::default()
            }),
            ..Default::default()
        }),
        ..Default::default()
    });
    assert_eq!(
        port_names(&empty_bindings),
        vec!["http-8080", "sftp-2022", "ftp-21"]
    );
}

#[test]
fn the_number_of_ports_is_the_sum_of_its_parts() {
    let mut configuration = scenario_configuration();
    configuration.httpd.as_mut().unwrap().bindings = Some(vec![
        HttpdBinding::default(),
        HttpdBinding {
            port: Some(8443),
            ..Default::default()
        },
    ]);
    configuration.ftpd.as_mut().unwrap().passive_port_range = Some(PassivePortRange {
        start: Some(50000),
        end: Some(50009),
    });
    let controller = controller(SftpgoServerSpec {
        configuration: Some(configuration),
        ..Default::default()
    });
    assert_eq!(controller.get_expected_ports().len(), 2 + 1 + 1 + 10);
}

#[test]
fn a_passive_range_needs_both_ends_in_order() {
    let with_range = |start: Option<i64>, end: Option<i64>| {
        controller(SftpgoServerSpec {
            configuration: Some(SftpgoConfiguration {
                ftpd: Some(Ftpd {
                    passive_port_range: Some(PassivePortRange { start, end }),
                    ..Default::default()
                }),
                ..Default::default()
            }),
            ..Default::default()
        })
    };
    assert_eq!(port_names(&with_range(Some(10), Some(5))), vec!["http-8080"]);
    assert_eq!(port_names(&with_range(Some(10), None)), vec!["http-8080"]);
    assert_eq!(port_names(&with_range(None, Some(10))), vec!["http-8080"]);
    assert_eq!(
        port_names(&with_range(Some(7), Some(7))),
        vec!["http-8080", "ftp-data-7"]
    );
    assert_eq!(
        port_names(&with_range(Some(i64::MAX - 1), Some(i64::MAX))),
        vec![
            "http-8080".to_string(),
            format!("ftp-data-{}", i64::MAX - 1),
            format!("ftp-data-{}", i64::MAX)
        ]
    );
}

#[test]
fn labels_join_the_asked_ones_with_the_controllers() {
    let mut asked = StringMap::new();
    asked.insert("team".to_string(), "storage".to_string());
    asked.insert("app".to_string(), "overridden".to_string());
    let controller = controller(SftpgoServerSpec {
        labels: Some(asked),
        ..Default::default()
    });
    let labels = controller.get_labels();
    assert_eq!(labels.len(), 3);
    assert_eq!(label(&labels, "team"), Some("storage".to_string()));
    assert_eq!(label(&labels, "app"), Some("demo".to_string()));
    assert_eq!(
        label(&labels, "managed-by"),
        Some("sftpgo-server-operator".to_string())
    );
}

#[test]
fn the_service_exposes_every_expected_port() {
    let controller = controller(SftpgoServerSpec {
        configuration: Some(scenario_configuration()),
        ..Default::default()
    });
    let service = controller.ensure_service();
    assert_eq!(service.metadata.name, "demo");
    assert_eq!(service.metadata.namespace, Some("files".to_string()));
    assert_eq!(service.metadata.owner_references.len(), 1);
    let owner = &service.metadata.owner_references[0];
    assert_eq!(owner.api_version, "sftpgo.zlepper.dk/v1alpha1");
    assert_eq!(owner.kind, "SftpgoServer");
    assert_eq!(owner.name, "demo");
    assert_eq!(owner.uid, "uid-1");
    assert!(owner.controller);
    assert_eq!(label(&service.selector, "app"), Some("demo".to_string()));
    assert_eq!(
        label(&service.selector, "managed-by"),
        Some("sftpgo-server-operator".to_string())
    );
    assert_eq!(service.selector.len(), 2);
    assert_eq!(service.ports.len(), 6);
    let first = &service.ports[0];
    assert_eq!(first.name, Some("http-9000".to_string()));
    assert_eq!(first.port, 9000);
    assert_eq!(first.protocol, Some("TCP".to_string()));
    assert_eq!(first.target_port, Some("http-9000".to_string()));
    assert_eq!(service.ports[5].name, Some("ftp-data-30002".to_string()));
}

#[test]
fn the_deployment_carries_the_flattened_configuration() {
    let mut selector = StringMap::new();
    selector.insert("disk".to_string(), "ssd".to_string());
    let controller = controller(SftpgoServerSpec {
        configuration: Some(SftpgoConfiguration {
            common: Some(Common {
                idle_timeout: Some(15),
                upload_mode: Some(UploadMode::Atomic),
                proxy_allowed: Some(vec!["10.0.0.1".to_string(), "10.0.0.2".to_string()]),
                ..Default::default()
            }),
            httpd: Some(Httpd {
                bindings: Some(vec![HttpdBinding {
                    port: Some(9000),
                    enable_https: Some(false),
                    ..Default::default()
                }]),
                ..Default::default()
            }),
            ..Default::default()
        }),
        replicas: Some(3),
        node_selector: Some(selector),
        ..Default::default()
    });
    let deployment = controller.ensure_deployment().unwrap();
    assert_eq!(deployment.metadata.name, "demo-deployment");
    assert_eq!(deployment.metadata.namespace, Some("files".to_string()));
    assert_eq!(deployment.replicas, Some(3));
    assert_eq!(label(&deployment.selector, "app"), Some("demo".to_string()));
    assert_eq!(
        label(&deployment.template_labels, "managed-by"),
        Some("sftpgo-server-operator".to_string())
    );
    assert_eq!(
        label(deployment.node_selector.as_ref().unwrap(), "disk"),
        Some("ssd".to_string())
    );
    assert_eq!(deployment.containers.len(), 1);
    let container = &deployment.containers[0];
    assert_eq!(container.name, "sftpgo");
    assert_eq!(container.image, Some(DEFAULT_IMAGE.to_string()));
    assert_eq!(container.image, Some("drakkan/sftpgo:v2.5".to_string()));
    assert_eq!(container.ports.len(), 1);
    assert_eq!(container.ports[0].name, Some("http-9000".to_string()));

    let env: Vec<(String, Option<String>)> = container
        .env
        .iter()
        .map(|e| (e.name.clone(), e.value.clone()))
        .collect();
    assert_eq!(
        env,
        vec![
            (
                "SFTPGO__COMMON__IDLE_TIMEOUT".to_string(),
                Some("15".to_string())
            ),
            (
                "SFTPGO__COMMON__UPLOAD_MODE".to_string(),
                Some("Atomic".to_string())
            ),
            (
                "SFTPGO__COMMON__PROXY_ALLOWED__0".to_string(),
                Some("10.0.0.1".to_string())
            ),
            (
                "SFTPGO__COMMON__PROXY_ALLOWED__1".to_string(),
                Some("10.0.0.2".to_string())
            ),
            (
                "SFTPGO__HTTPD__BINDINGS__0__PORT".to_string(),
                Some("9000".to_string())
            ),
            (
                "SFTPGO__HTTPD__BINDINGS__0__ENABLE_HTTPS".to_string(),
                Some("false".to_string())
            ),
            (
                "SFTPGO_DATA_PROVIDER__CREATE_DEFAULT_ADMIN".to_string(),
                Some("true".to_string())
            ),
            ("SFTPGO_DEFAULT_ADMIN_USERNAME".to_string(), None),
            ("SFTPGO_DEFAULT_ADMIN_PASSWORD".to_string(), None),
        ]
    );
    let username = container.env[7].value_from.as_ref().unwrap();
    assert_eq!(username.name, Some("demo-admin-user".to_string()));
    assert_eq!(username.key, "username");
    let password = container.env[8].value_from.as_ref().unwrap();
    assert_eq!(password.name, Some("demo-admin-user".to_string()));
    assert_eq!(password.key, "password");
}

#[test]
fn the_image_of_the_resource_wins_over_the_default() {
    let controller = controller(SftpgoServerSpec {
        image: Some("example/sftpgo:custom".to_string()),
        ..Default::default()
    });
    let deployment = controller.ensure_deployment().unwrap();
    assert_eq!(
        deployment.containers[0].image,
        Some("example/sftpgo:custom".to_string())
    );
    assert_eq!(deployment.containers[0].env.len(), 3);
    assert_eq!(deployment.node_selector.map(|s| s.len()), None);
}

#[test]
fn rendering_twice_gives_the_same_objects() {
    let spec = || SftpgoServerSpec {
        configuration: Some(scenario_configuration()),
        replicas: Some(2),
        ..Default::default()
    };
    let first = controller(spec());
    let second = controller(spec());
    assert_eq!(
        format!("{:?}", first.ensure_service()),
        format!("{:?}", second.ensure_service())
    );
    assert_eq!(
        format!("{:?}", first.ensure_deployment().unwrap()),
        format!("{:?}", second.ensure_deployment().unwrap())
    );
}

#[test]
fn the_management_url_follows_the_first_http_binding() {
    let plain = controller(SftpgoServerSpec::default());
    assert_eq!(plain.get_management_url(), "http://demo.files.svc:8080");

    let secure = controller(SftpgoServerSpec {
        configuration: Some(SftpgoConfiguration {
            httpd: Some(Httpd {
                bindings: Some(vec![
                    HttpdBinding {
                        port: Some(9443),
                        enable_https: Some(true),
                        ..Default::default()
                    },
                    HttpdBinding {
                        port: Some(9000),
                        ..Default::default()
                    },
                ]),
                ..Default::default()
            }),
            ..Default::default()
        }),
        ..Default::default()
    });
    assert_eq!(secure.get_management_url(), "https://demo.files.svc:9443");
    assert_eq!(secure.get_admin_user_secret_name(), "demo-admin-user");
    assert_eq!(secure.get_deployment_name(), "demo-deployment");
}

#[test]
fn a_new_secret_holds_fresh_credentials() {
    let controller = controller(SftpgoServerSpec::default());
    let secret = match controller.ensure_secret(None) {
        SecretPlan::Create(secret) => secret,
        other => panic!("unexpected plan: {:?}", other),
    };
    assert_eq!(secret.metadata.name, "demo-admin-user");
    assert_eq!(secret.metadata.owner_references.len(), 1);
    assert_eq!(secret.string_data.len(), 3);
    assert_eq!(
        label(&secret.string_data, "url"),
        Some("http://demo.files.svc:8080".to_string())
    );
    let username = label(&secret.string_data, "username").unwrap();
    assert!(username.starts_with("managed_admin_"));
    assert_eq!(username.len(), "managed_admin_".len() + 16);
    assert!(username["managed_admin_".len()..]
        .chars()
        .all(|c| c.is_ascii_alphanumeric()));
    let password = label(&secret.string_data, "password").unwrap();
    assert_eq!(password.len(), 50);
    assert!(password.chars().all(|c| c.is_ascii_alphanumeric()));

    let again = match controller.ensure_secret(None) {
        SecretPlan::Create(secret) => secret,
        other => panic!("unexpected plan: {:?}", other),
    };
    assert_ne!(label(&again.string_data, "password"), Some(password));
}

#[test]
fn given_credentials_are_written_as_they_are() {
    let controller = controller(SftpgoServerSpec::default());
    let secret = controller.new_admin_secret("0123456789abcdef", "pw".to_string());
    assert_eq!(
        label(&secret.string_data, "username"),
        Some("managed_admin_0123456789abcdef".to_string())
    );
    assert_eq!(label(&secret.string_data, "password"), Some("pw".to_string()));
    assert_eq!(secret.metadata.namespace, None);
}

#[test]
fn an_existing_secret_keeps_its_credentials() {
    let controller = controller(SftpgoServerSpec::default());
    assert!(matches!(
        controller.ensure_secret(Some(existing_secret("http://demo.files.svc:8080"))),
        SecretPlan::Unchanged
    ));
    let replaced = match controller.ensure_secret(Some(existing_secret("http://old:1"))) {
        SecretPlan::Replace(secret) => secret,
        other => panic!("unexpected plan: {:?}", other),
    };
    assert_eq!(
        label(&replaced.string_data, "url"),
        Some("http://demo.files.svc:8080".to_string())
    );
    assert_eq!(
        label(&replaced.string_data, "username"),
        Some("managed_admin_abc".to_string())
    );
    assert_eq!(
        label(&replaced.string_data, "password"),
        Some("pw".to_string())
    );
    assert_eq!(replaced.string_data.len(), 3);

    let mut without_url = existing_secret("x");
    without_url.string_data.remove("url");
    let completed = match controller.ensure_secret(Some(without_url)) {
        SecretPlan::Replace(secret) => secret,
        other => panic!("unexpected plan: {:?}", other),
    };
    assert_eq!(
        label(&completed.string_data, "url"),
        Some("http://demo.files.svc:8080".to_string())
    );
    assert_eq!(
        label(&completed.string_data, "username"),
        Some("managed_admin_abc".to_string())
    );
}

#[test]
fn a_server_without_namespace_is_refused() {
    let mut resource = server("demo", SftpgoServerSpec::default());
    resource.metadata.namespace = None;
    match reconcile_sftpgo_server(resource) {
        Err(Error::UserInput(message)) => assert_eq!(
            message,
            "Expected SftpgoServer resource to be namespaced. Can't deploy to unknown namespace."
        ),
        other => panic!("unexpected result: {:?}", other.map(|r| r.1)),
    }
}

fn begin(resource: SftpgoServer) -> (ServerReconciliation, ServerCommand) {
    reconcile_sftpgo_server(resource).unwrap()
}

#[test]
fn upkeep_of_a_server_ends_with_an_hourly_requeue() {
    let mut resource = server("demo", SftpgoServerSpec::default());
    resource.metadata.finalizers = None;
    let (mut reconciliation, command) = begin(resource);
    match &command {
        ServerCommand::AddFinalizer(patch) => assert_eq!(
            patch.finalizers,
            vec!["sftpgo.zlepper.dk/finalizer".to_string()]
        ),
        other => panic!("unexpected command: {:?}", other),
    }
    assert_eq!(reconciliation.phase, ServerPhase::AddingFinalizer);

    let command = reconciliation.step(ServerEvent::Done);
    assert!(matches!(command, ServerCommand::ReadSecret(name) if name == "demo-admin-user"));

    let command = reconciliation.step(ServerEvent::SecretRead(None));
    assert!(matches!(command, ServerCommand::CreateSecret(_)));
    assert_eq!(reconciliation.phase, ServerPhase::WritingSecret);

    let command = reconciliation.step(ServerEvent::Done);
    assert!(matches!(command, ServerCommand::ApplyService(s) if s.metadata.name == "demo"));

    let command = reconciliation.step(ServerEvent::Done);
    assert!(
        matches!(command, ServerCommand::ApplyDeployment(d) if d.metadata.name == "demo-deployment")
    );

    let command = reconciliation.step(ServerEvent::Done);
    assert!(matches!(
        command,
        ServerCommand::Finish(Action::Requeue(3600))
    ));
    assert_eq!(reconciliation.phase, ServerPhase::Finished);
    assert_eq!(FIELD_MANAGER, "sftpgo-operator");
}

#[test]
fn an_unchanged_secret_is_not_written() {
    let (mut reconciliation, command) = begin(server("demo", SftpgoServerSpec::default()));
    assert!(matches!(command, ServerCommand::ReadSecret(_)));
    let command = reconciliation.step(ServerEvent::SecretRead(Some(existing_secret(
        "http://demo.files.svc:8080",
    ))));
    assert!(matches!(command, ServerCommand::ApplyService(_)));

    let (mut reconciliation, _) = begin(server("demo", SftpgoServerSpec::default()));
    let command =
        reconciliation.step(ServerEvent::SecretRead(Some(existing_secret("http://old"))));
    match command {
        ServerCommand::ReplaceSecret(secret) => assert_eq!(
            label(&secret.string_data, "username"),
            Some("managed_admin_abc".to_string())
        ),
        other => panic!("unexpected command: {:?}", other),
    }
}

#[test]
fn deletion_of_a_server_removes_its_children_then_the_finalizer() {
    let mut resource = server("demo", SftpgoServerSpec::default());
    resource.metadata.deletion_timestamp = Some("2024-01-01T00:00:00Z".to_string());
    let (mut reconciliation, command) = begin(resource);
    assert!(matches!(command, ServerCommand::DeleteDeployment(n) if n == "demo-deployment"));
    let command = reconciliation.step(ServerEvent::Done);
    assert!(matches!(command, ServerCommand::DeleteService(n) if n == "demo"));
    let command = reconciliation.step(ServerEvent::Done);
    assert!(matches!(command, ServerCommand::DeleteSecret(n) if n == "demo-admin-user"));
    let command = reconciliation.step(ServerEvent::Done);
    assert!(matches!(&command, ServerCommand::RemoveFinalizer(patch) if patch.finalizers.is_empty()));
    let command = reconciliation.step(ServerEvent::Done);
    assert!(matches!(
        command,
        ServerCommand::Finish(Action::AwaitChange)
    ));
}

#[test]
fn failures_and_stray_events_end_a_server_reconciliation() {
    let (mut reconciliation, _) = begin(server("demo", SftpgoServerSpec::default()));
    let command = reconciliation.step(ServerEvent::Failed(Error::Kube {
        source: "timeout".to_string(),
    }));
    assert!(matches!(command, ServerCommand::Fail(Error::Kube { source }) if source == "timeout"));
    assert_eq!(reconciliation.phase, ServerPhase::Finished);

    let command = reconciliation.step(ServerEvent::Done);
    assert!(matches!(command, ServerCommand::Fail(Error::Kube { .. })));

    let (mut reconciliation, _) = begin(server("demo", SftpgoServerSpec::default()));
    let command = reconciliation.step(ServerEvent::Done);
    assert!(matches!(command, ServerCommand::Fail(_)));
}

#[test]
fn ports_have_to_fit_kubernetes() {
    assert_eq!(checked_port(8080).unwrap(), 8080);
    assert_eq!(checked_port(i32::MAX as i64).unwrap(), i32::MAX);
    assert_eq!(checked_port(i32::MIN as i64).unwrap(), i32::MIN);
    match checked_port(i32::MAX as i64 + 1) {
        Err(Error::UserInput(message)) => assert_eq!(message, "Port 2147483648 is out of range"),
        other => panic!("unexpected result: {:?}", other),
    }
    assert!(matches!(
        checked_port(i64::MIN),
        Err(Error::UserInput(message)) if message == "Port -9223372036854775808 is out of range"
    ));
}

#[test]
fn an_object_that_is_not_there_counts_as_deleted() {
    assert!(matches!(deleted(None, String::new()), ServerEvent::Done));
    assert!(matches!(
        deleted(Some(404), "not found".to_string()),
        ServerEvent::Done
    ));
    assert!(matches!(
        deleted(Some(403), "forbidden".to_string()),
        ServerEvent::Failed(Error::Kube { source }) if source == "forbidden"
    ));
}

#[test]
fn a_server_keeps_its_finalizer_until_its_children_are_gone() {
    let mut resource = server("demo", SftpgoServerSpec::default());
    resource.metadata.deletion_timestamp = Some("2024-01-01T00:00:00Z".to_string());
    let (mut reconciliation, mut command) = begin(resource);
    let mut deletions = 0;
    loop {
        match command {
            ServerCommand::RemoveFinalizer(_) => break,
            ServerCommand::DeleteDeployment(_)
            | ServerCommand::DeleteService(_)
            | ServerCommand::DeleteSecret(_) => deletions += 1,
            other => panic!("unexpected command: {:?}", other),
        }
        command = reconciliation.step(ServerEvent::Done);
    }
    assert_eq!(deletions, 3);

    let mut resource = server("demo", SftpgoServerSpec::default());
    resource.metadata.deletion_timestamp = Some("2024-01-01T00:00:00Z".to_string());
    let (mut reconciliation, _) = begin(resource);
    let command = reconciliation.step(ServerEvent::Failed(Error::Kube {
        source: "busy".to_string(),
    }));
    assert!(matches!(command, ServerCommand::Fail(_)));
    assert_eq!(reconciliation.phase, ServerPhase::Finished);
}

#[test]
fn a_server_with_only_another_finalizer_gets_the_controllers() {
    let mut resource = server("demo", SftpgoServerSpec::default());
    resource.metadata.finalizers = Some(vec!["other/finalizer".to_string()]);
    let (mut reconciliation, command) = begin(resource);
    match command {
        ServerCommand::AddFinalizer(patch) => assert_eq!(
            patch.finalizers,
            vec![
                "other/finalizer".to_string(),
                "sftpgo.zlepper.dk/finalizer".to_string()
            ]
        ),
        other => panic!("unexpected command: {:?}", other),
    }
    let command = reconciliation.step(ServerEvent::Done);
    assert!(matches!(command, ServerCommand::ReadSecret(_)));
    assert_eq!(reconciliation.finalizers.len(), 2);
}

#[test]
fn deletion_of_a_server_leaves_other_finalizers_on() {
    let mut resource = server("demo", SftpgoServerSpec::default());
    resource.metadata.deletion_timestamp = Some("2024-01-01T00:00:00Z".to_string());
    resource.metadata.finalizers = Some(vec![
        "other/finalizer".to_string(),
        "sftpgo.zlepper.dk/finalizer".to_string(),
    ]);
    let (mut reconciliation, _) = begin(resource);
    reconciliation.step(ServerEvent::Done);
    reconciliation.step(ServerEvent::Done);
    match reconciliation.step(ServerEvent::Done) {
        ServerCommand::RemoveFinalizer(patch) => {
            assert_eq!(patch.finalizers, vec!["other/finalizer".to_string()])
        }
        other => panic!("unexpected command: {:?}", other),
    }
    let command = reconciliation.step(ServerEvent::Done);
    assert!(matches!(command, ServerCommand::Finish(Action::AwaitChange)));
    assert_eq!(reconciliation.finalizers, vec!["other/finalizer".to_string()]);

    let mut resource = server("demo", SftpgoServerSpec::default());
    resource.metadata.deletion_timestamp = Some("2024-01-01T00:00:00Z".to_string());
    resource.metadata.finalizers = Some(vec!["other/finalizer".to_string()]);
    let (mut reconciliation, _) = begin(resource);
    reconciliation.step(ServerEvent::Done);
    reconciliation.step(ServerEvent::Done);
    let command = reconciliation.step(ServerEvent::Done);
    assert!(matches!(command, ServerCommand::Finish(Action::AwaitChange)));
}

#[test]
fn the_owner_of_what_is_rendered_is_the_server() {
    let (reconciliation, _) = begin(server("demo", SftpgoServerSpec::default()));
    let owner = &reconciliation.controller.owner_reference;
    assert_eq!(owner.api_version, "sftpgo.zlepper.dk/v1alpha1");
    assert_eq!(owner.kind, "SftpgoServer");
    assert_eq!(owner.name, "demo");
    assert_eq!(owner.uid, "uid-1");
    assert!(owner.controller);
}

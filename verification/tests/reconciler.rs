use sftpgo_operator::crds::admin::{
    AdminPermission, SftpgoAdmin, SftpgoAdminConfiguration, SftpgoAdminSpec,
};
use sftpgo_operator::crds::sftpgo_server_reference::ServerReference;
use sftpgo_operator::crds::sftpgo_status::SftpgoStatus;
use sftpgo_operator::crds::user::SftpgoUserResourceStatus;
use sftpgo_operator::kubernetes::ObjectMeta;
use sftpgo_operator::operator::finalizers::{
    add_finalizer, carries_finalizer, ensure_finalizer, put_on, remove_finalizer, take_off,
    FINALIZER,
};
use sftpgo_operator::operator::reconciler::{
    error_policy, observe, sftpgo_api_resource_reconciler, Action, Command, Error, Event,
    Observed, Phase, Reconciliation, RecordedStatus,
};

fn observed(name: &str, status: Option<(&str, Option<i32>)>) -> Observed {
    Observed {
        name: name.to_string(),
        deleting: false,
        finalizers: vec![],
        status: status.map(|(last_name, id)| RecordedStatus {
            last_name: last_name.to_string(),
            id,
        }),
    }
}

fn started() -> Reconciliation {
    Reconciliation {
        phase: Phase::Fetching,
        observed: None,
    }
}

fn admin(namespace: Option<&str>) -> SftpgoAdmin {
    SftpgoAdmin {
        metadata: ObjectMeta {
            name: Some("root".to_string()),
            namespace: namespace.map(|s| s.to_string()),
            ..Default::default()
        },
        spec: SftpgoAdminSpec {
            configuration: SftpgoAdminConfiguration {
                username: "root".to_string(),
                description: None,
                password: "pw".to_string(),
                enabled: None,
                email: None,
                permissions: vec![AdminPermission::All],
                role: None,
            },
            server_reference: ServerReference {
                name: Some("demo".to_string()),
                namespace: None,
                connection_secret: None,
                override_values: None,
            },
        },
        status: None,
    }
}

fn patched(command: Command) -> (String, Option<i32>) {
    match command {
        Command::PatchStatus(status) => (status.last_name, status.id),
        other => panic!("unexpected command: {:?}", other),
    }
}

#[test]
fn first_reconcile_of_a_user() {
    let mut reconciliation = started();
    let command = reconciliation.step(Event::Fetched(observed("alice", None)));
    assert!(matches!(command, Command::Connect));
    let command = reconciliation.step(Event::Connected);
    assert!(matches!(command, Command::AddFinalizer(_)));
    let command = reconciliation.step(Event::Done);
    assert_eq!(patched(command), ("alice".to_string(), None));
    let command = reconciliation.step(Event::Done);
    assert!(matches!(command, Command::BuildRequest));
    let command = reconciliation.step(Event::RequestBuilt);
    assert!(matches!(command, Command::Lookup(name) if name == "alice"));
    let command = reconciliation.step(Event::Found(false));
    assert!(matches!(command, Command::Create));
    let command = reconciliation.step(Event::Created(41));
    assert_eq!(patched(command), ("alice".to_string(), Some(41)));
    let command = reconciliation.step(Event::Done);
    assert!(matches!(command, Command::Finish(Action::AwaitChange)));
    assert_eq!(reconciliation.phase, Phase::Finished);
    let seen = reconciliation.observed.unwrap();
    assert_eq!(seen.finalizers, vec![FINALIZER.to_string()]);
    assert_eq!(seen.status.unwrap().id, Some(41));
}

#[test]
fn rename_deletes_the_old_entity_and_keeps_the_identifier() {
    let mut reconciliation = started();
    let mut seen = observed("alicia", Some(("alice", Some(7))));
    seen.finalizers = vec![FINALIZER.to_string()];
    reconciliation.step(Event::Fetched(seen));
    let command = reconciliation.step(Event::Connected);
    assert!(matches!(command, Command::DeleteEntity(name) if name == "alice"));
    assert_eq!(reconciliation.phase, Phase::DeletingRenamed);
    let command = reconciliation.step(Event::Done);
    assert_eq!(patched(command), ("alicia".to_string(), Some(7)));
    let command = reconciliation.step(Event::Done);
    assert!(matches!(command, Command::BuildRequest));
    let command = reconciliation.step(Event::RequestBuilt);
    assert!(matches!(command, Command::Lookup(name) if name == "alicia"));
    let command = reconciliation.step(Event::Found(false));
    assert!(matches!(command, Command::Create));
    let command = reconciliation.step(Event::Created(8));
    assert_eq!(patched(command), ("alicia".to_string(), Some(8)));
    let command = reconciliation.step(Event::Done);
    assert!(matches!(command, Command::Finish(Action::AwaitChange)));
}

#[test]
fn an_existing_entity_is_updated_and_its_status_kept() {
    let mut reconciliation = started();
    let mut seen = observed("alice", Some(("alice", Some(7))));
    seen.finalizers = vec![FINALIZER.to_string()];
    reconciliation.step(Event::Fetched(seen));
    let command = reconciliation.step(Event::Connected);
    assert!(matches!(command, Command::BuildRequest));
    reconciliation.step(Event::RequestBuilt);
    let command = reconciliation.step(Event::Found(true));
    assert!(matches!(command, Command::Update));
    let command = reconciliation.step(Event::Done);
    assert!(matches!(command, Command::Finish(Action::AwaitChange)));
    assert_eq!(reconciliation.observed.unwrap().status.unwrap().id, Some(7));
}

#[test]
fn deletion_cleans_up_before_the_finalizer_goes() {
    let mut reconciliation = started();
    let mut seen = observed("alicia", Some(("alice", Some(7))));
    seen.finalizers = vec![FINALIZER.to_string()];
    seen.deleting = true;
    reconciliation.step(Event::Fetched(seen));
    let command = reconciliation.step(Event::Connected);
    assert!(matches!(command, Command::DeleteEntity(name) if name == "alice"));
    let command = reconciliation.step(Event::Done);
    assert!(matches!(command, Command::DeleteEntity(name) if name == "alicia"));
    let command = reconciliation.step(Event::Done);
    assert!(matches!(command, Command::RemoveFinalizer(_)));
    let command = reconciliation.step(Event::Done);
    assert!(matches!(command, Command::Finish(Action::AwaitChange)));
    assert!(reconciliation.observed.unwrap().finalizers.is_empty());

    let mut reconciliation = started();
    let mut seen = observed("bob", Some(("bob", Some(1))));
    seen.deleting = true;
    seen.finalizers = vec![FINALIZER.to_string()];
    reconciliation.step(Event::Fetched(seen));
    let command = reconciliation.step(Event::Connected);
    assert!(matches!(command, Command::DeleteEntity(name) if name == "bob"));
    let command = reconciliation.step(Event::Done);
    assert!(matches!(command, Command::RemoveFinalizer(_)));
}

#[test]
fn the_finalizer_is_never_added_to_a_resource_that_is_being_deleted() {
    let mut reconciliation = started();
    let mut seen = observed("carol", None);
    seen.deleting = true;
    reconciliation.step(Event::Fetched(seen));
    let mut command = reconciliation.step(Event::Connected);
    let mut steps = 0;
    loop {
        assert!(!matches!(command, Command::AddFinalizer(_)));
        assert!(!matches!(command, Command::PatchStatus(_)));
        if matches!(command, Command::Finish(_)) {
            break;
        }
        command = reconciliation.step(Event::Done);
        steps += 1;
        assert!(steps < 10);
    }
}

#[test]
fn a_failure_ends_the_reconciliation_with_its_error() {
    let mut reconciliation = started();
    reconciliation.step(Event::Fetched(observed("alice", None)));
    reconciliation.step(Event::Connected);
    let command = reconciliation.step(Event::Failed(Error::NotReady("shared".to_string())));
    assert!(matches!(command, Command::Fail(Error::NotReady(name)) if name == "shared"));
    assert_eq!(reconciliation.phase, Phase::Finished);
    assert!(reconciliation.observed.as_ref().unwrap().finalizers.is_empty());
    let command = reconciliation.step(Event::Done);
    assert!(matches!(command, Command::Fail(Error::Kube { .. })));
}

#[test]
fn events_out_of_turn_are_failures() {
    let mut reconciliation = started();
    assert!(matches!(
        reconciliation.step(Event::Connected),
        Command::Fail(Error::Kube { .. })
    ));
    let mut reconciliation = started();
    reconciliation.step(Event::Fetched(observed("alice", None)));
    assert!(matches!(
        reconciliation.step(Event::Created(1)),
        Command::Fail(Error::Kube { .. })
    ));
    let mut reconciliation = started();
    reconciliation.step(Event::Fetched(observed("alice", None)));
    assert!(matches!(
        reconciliation.step(Event::Fetched(observed("alice", None))),
        Command::Fail(Error::Kube { .. })
    ));
}

#[test]
fn a_reconciliation_begins_by_fetching() {
    let (reconciliation, command) = sftpgo_api_resource_reconciler(&admin(Some("files")), "SftpgoAdmin");
    assert_eq!(reconciliation.phase, Phase::Fetching);
    assert!(matches!(command, Command::Fetch));

    let (reconciliation, command) = sftpgo_api_resource_reconciler(&admin(None), "SftpgoAdmin");
    assert_eq!(reconciliation.phase, Phase::Finished);
    match command {
        Command::Fail(Error::UserInput(message)) => assert_eq!(
            message,
            "Expected SftpgoAdmin resource to be namespaced. Can't deploy to unknown namespace."
        ),
        other => panic!("unexpected command: {:?}", other),
    }
}

#[test]
fn a_resource_is_observed_as_it_is() {
    let mut resource = admin(Some("files"));
    resource.metadata.finalizers = Some(vec![FINALIZER.to_string()]);
    resource.metadata.deletion_timestamp = Some("now".to_string());
    let seen = observe(&resource);
    assert_eq!(seen.name, "root");
    assert!(seen.deleting);
    assert_eq!(seen.finalizers, vec![FINALIZER.to_string()]);
    assert!(seen.status.is_none());

    resource.metadata.finalizers = Some(vec![]);
    resource.metadata.deletion_timestamp = None;
    let seen = observe(&resource);
    assert!(!seen.deleting);
    assert!(seen.finalizers.is_empty());
}

#[test]
fn statuses_record_name_and_identifier() {
    let mut status = SftpgoUserResourceStatus::default();
    assert_eq!(status.get_last_name(), "");
    assert_eq!(status.get_id(), None);
    status.set_last_name("alice");
    status.set_id(Some(7));
    assert_eq!(status.get_last_name(), "alice");
    assert_eq!(status.get_id(), Some(7));
    status.set_last_name("alicia");
    assert_eq!(status.get_id(), Some(7));
    assert_eq!(status.last_username, "alicia");
}

#[test]
fn errors_are_retried_after_fifteen_seconds() {
    assert_eq!(
        error_policy(&Error::NotReady("shared".to_string()), 1),
        Action::Requeue(15)
    );
    assert_eq!(
        error_policy(&Error::UserInput("bad".to_string()), 1),
        Action::Requeue(15)
    );
    assert_eq!(
        error_policy(&Error::UserInput("bad".to_string()), 0),
        Action::Requeue(15)
    );
}

#[test]
fn the_delay_doubles_with_every_failure_in_a_row() {
    let error = Error::NotReady("shared".to_string());
    assert_eq!(error_policy(&error, 2), Action::Requeue(30));
    assert_eq!(error_policy(&error, 3), Action::Requeue(60));
    assert_eq!(error_policy(&error, 4), Action::Requeue(120));
    assert_eq!(error_policy(&error, 10), Action::Requeue(15 * 512));
    assert_eq!(error_policy(&error, 61), Action::Requeue(15 << 60));
    assert_eq!(error_policy(&error, 62), Action::Requeue(u64::MAX));
    assert_eq!(error_policy(&error, u32::MAX), Action::Requeue(u64::MAX));
    let mut last = 0;
    for failures in 1..=61 {
        match error_policy(&error, failures) {
            Action::Requeue(seconds) => {
                assert!(seconds > last);
                last = seconds;
            }
            Action::AwaitChange => panic!("a failure is always retried"),
        }
    }
}

fn list(names: &[&str]) -> Vec<String> {
    names.iter().map(|name| name.to_string()).collect()
}

#[test]
fn the_finalizer_is_put_on_beside_the_others() {
    assert_eq!(FINALIZER, "sftpgo.zlepper.dk/finalizer");
    assert_eq!(put_on(&list(&[])).finalizers, list(&[FINALIZER]));
    assert_eq!(
        put_on(&list(&["other/finalizer"])).finalizers,
        list(&["other/finalizer", FINALIZER])
    );
    assert_eq!(
        put_on(&list(&["a", FINALIZER, "b"])).finalizers,
        list(&["a", FINALIZER, "b"])
    );
    assert!(carries_finalizer(&list(&["a", FINALIZER])));
    assert!(!carries_finalizer(&list(&["a", "sftpgo.zlepper.dk/finalize"])));
    assert!(!carries_finalizer(&list(&[])));

    let mut metadata = ObjectMeta::default();
    assert_eq!(add_finalizer(&metadata).finalizers, list(&[FINALIZER]));
    metadata.finalizers = Some(list(&["kubernetes"]));
    assert_eq!(
        add_finalizer(&metadata).finalizers,
        list(&["kubernetes", FINALIZER])
    );
}

#[test]
fn the_finalizer_is_taken_off_and_the_others_stay() {
    assert_eq!(take_off(&list(&[FINALIZER])).finalizers, list(&[]));
    assert_eq!(
        take_off(&list(&["a", FINALIZER, "b"])).finalizers,
        list(&["a", "b"])
    );
    assert_eq!(
        take_off(&list(&[FINALIZER, "a", FINALIZER])).finalizers,
        list(&["a"])
    );
    assert_eq!(take_off(&list(&["a", "b"])).finalizers, list(&["a", "b"]));
}

#[test]
fn the_finalizer_is_only_removed_where_there_is_one() {
    let mut metadata = ObjectMeta::default();
    assert_eq!(remove_finalizer(&metadata), None);
    metadata.finalizers = Some(vec![]);
    assert_eq!(remove_finalizer(&metadata), None);
    metadata.finalizers = Some(list(&["other/finalizer"]));
    assert_eq!(remove_finalizer(&metadata), None);
    metadata.finalizers = Some(list(&[FINALIZER]));
    assert_eq!(remove_finalizer(&metadata).unwrap().finalizers, list(&[]));
    metadata.finalizers = Some(list(&[FINALIZER, "other/finalizer"]));
    assert_eq!(
        remove_finalizer(&metadata).unwrap().finalizers,
        list(&["other/finalizer"])
    );
}

#[test]
fn the_finalizer_is_only_added_where_there_is_none() {
    let mut metadata = ObjectMeta {
        name: Some("alice".to_string()),
        namespace: Some("files".to_string()),
        ..Default::default()
    };
    assert_eq!(
        ensure_finalizer(&metadata, "SftpgoUser").unwrap().unwrap().finalizers,
        list(&[FINALIZER])
    );
    metadata.finalizers = Some(vec![]);
    assert_eq!(
        ensure_finalizer(&metadata, "SftpgoUser").unwrap().unwrap().finalizers,
        list(&[FINALIZER])
    );
    metadata.finalizers = Some(list(&["other/finalizer"]));
    assert_eq!(
        ensure_finalizer(&metadata, "SftpgoUser").unwrap().unwrap().finalizers,
        list(&["other/finalizer", FINALIZER])
    );
    metadata.finalizers = Some(list(&["other/finalizer", FINALIZER]));
    assert!(matches!(ensure_finalizer(&metadata, "SftpgoUser"), Ok(None)));
    metadata.finalizers = Some(list(&[FINALIZER]));
    assert!(matches!(ensure_finalizer(&metadata, "SftpgoUser"), Ok(None)));
    metadata.namespace = None;
    match ensure_finalizer(&metadata, "SftpgoUser") {
        Err(Error::UserInput(message)) => assert_eq!(
            message,
            "Expected SftpgoUser resource to be namespaced. Can't deploy to unknown namespace."
        ),
        other => panic!("unexpected result: {:?}", other),
    }
}

#[test]
fn a_resource_with_only_another_finalizer_gets_the_controllers() {
    let mut reconciliation = started();
    let mut seen = observed("alice", Some(("alice", Some(7))));
    seen.finalizers = list(&["other/finalizer"]);
    reconciliation.step(Event::Fetched(seen));
    match reconciliation.step(Event::Connected) {
        Command::AddFinalizer(patch) => {
            assert_eq!(patch.finalizers, list(&["other/finalizer", FINALIZER]))
        }
        other => panic!("unexpected command: {:?}", other),
    }
    let command = reconciliation.step(Event::Done);
    assert!(matches!(command, Command::BuildRequest));
    assert_eq!(
        reconciliation.observed.as_ref().unwrap().finalizers,
        list(&["other/finalizer", FINALIZER])
    );
}

#[test]
fn deletion_takes_only_the_controllers_finalizer_off() {
    let mut reconciliation = started();
    let mut seen = observed("bob", Some(("bob", Some(1))));
    seen.deleting = true;
    seen.finalizers = list(&[FINALIZER, "other/finalizer"]);
    reconciliation.step(Event::Fetched(seen));
    reconciliation.step(Event::Connected);
    match reconciliation.step(Event::Done) {
        Command::RemoveFinalizer(patch) => {
            assert_eq!(patch.finalizers, list(&["other/finalizer"]))
        }
        other => panic!("unexpected command: {:?}", other),
    }
    let command = reconciliation.step(Event::Done);
    assert!(matches!(command, Command::Finish(Action::AwaitChange)));
    assert_eq!(
        reconciliation.observed.unwrap().finalizers,
        list(&["other/finalizer"])
    );

    let mut reconciliation = started();
    let mut seen = observed("bob", None);
    seen.deleting = true;
    seen.finalizers = list(&["other/finalizer"]);
    reconciliation.step(Event::Fetched(seen));
    reconciliation.step(Event::Connected);
    let command = reconciliation.step(Event::Done);
    assert!(matches!(command, Command::Finish(Action::AwaitChange)));
    assert_eq!(
        reconciliation.observed.unwrap().finalizers,
        list(&["other/finalizer"])
    );
}

#[test]
fn names_fall_back_to_the_generated_prefix() {
    let mut metadata = ObjectMeta::default();
    assert_eq!(metadata.name_any(), "");
    metadata.generate_name = Some("gen-".to_string());
    assert_eq!(metadata.name_any(), "gen-");
    metadata.name = Some("named".to_string());
    assert_eq!(metadata.name_any(), "named");
}

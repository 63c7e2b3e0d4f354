//! The reconciliation of users, folders and administrators against the
//! management API, and what every reconciliation can fail with.

use crate::client::error_response::SftpgoError;
use crate::client::rest_client::EntityKind;
use crate::crds::sftpgo_server_reference::ServerReference;
use crate::crds::sftpgo_status::SftpgoStatus;
use crate::crds::viper_environment_serializer::Error as ViperEnvironmentSerializerError;
use crate::kubernetes::ObjectMeta;
use crate::operator::finalizers::{
    carries_finalizer, copy_names, has_finalizer, names, namespace_message, put_on, take_off,
    with_finalizer, without_finalizer, FinalizerPatch,
};
use crate::text::concat;
use vstd::string::StringExecFns;
use vstd::prelude::*;

verus! {

/// Everything a reconciliation can fail with.
#[derive(Debug)]
#[allow(inconsistent_fields)]
pub enum Error {
    /// The Kubernetes API reported an error; its message.
    Kube { source: String },
    /// A watch on the Kubernetes API failed; its message.
    KubeWatcher { source: String },
    /// The configuration could not be flattened.
    ViperSerializer { source: ViperEnvironmentSerializerError },
    /// The resource, or a Secret it refers to, is contradictory or
    /// incomplete.
    UserInput(String),
    /// A resource that this one depends on exists but is not ready; its
    /// name.
    NotReady(String),
    /// The management API refused or failed a request.
    SftpgoRequestFailed(SftpgoError),
    /// A value could not be decoded; the reason.
    DecodeError(String),
}

/// What the scheduler is asked to do after a reconciliation.
#[derive(Debug, Clone, Copy, PartialEq, Eq, Structural)]
pub enum Action {
    /// Wait for the next change of the resource.
    AwaitChange,
    /// Reconcile again after this many seconds.
    Requeue(u64),
}

/// Seconds after which a failed reconciliation is tried again.
pub const ERROR_REQUEUE_SECONDS: u64 = 15;

/// The seconds to wait after a number of failures in a row: 15 after
/// the first, and twice as long after each further one.
pub open spec fn backoff_seconds(failures: nat) -> nat
    decreases failures,
{
    if failures <= 1 {
        15
    } else {
        2 * backoff_seconds((failures - 1) as nat)
    }
}

/// A number of seconds as the scheduler takes it: the largest delay
/// that it can hold where the number is beyond that.
pub open spec fn capped_seconds(seconds: nat) -> u64 {
    if seconds > u64::MAX {
        u64::MAX
    } else {
        seconds as u64
    }
}

/// The delay starts at 15 seconds and doubles with every further
/// failure in a row, so it grows.
pub proof fn lemma_backoff_grows(failures: nat)
    requires
        failures >= 1,
    ensures
        backoff_seconds(0) == 15,
        backoff_seconds(1) == 15,
        backoff_seconds(failures + 1) == 2 * backoff_seconds(failures),
        backoff_seconds(failures + 1) > backoff_seconds(failures),
        backoff_seconds(failures) >= 15,
    decreases failures,
{
    if failures > 1 {
        lemma_backoff_grows((failures - 1) as nat);
    }
}

/// More failures in a row never wait less.
pub proof fn lemma_backoff_monotone(fewer: nat, more: nat)
    requires
        fewer <= more,
    ensures
        backoff_seconds(fewer) <= backoff_seconds(more),
    decreases more,
{
    if fewer < more {
        if more > 1 {
            lemma_backoff_monotone(fewer, (more - 1) as nat);
            lemma_backoff_grows((more - 1) as nat);
        }
    }
}

/// The action after a failed reconciliation, the `failures`-th in a row
/// for its resource: try again, whatever the error, after 15 seconds
/// where it is the first failure, and after twice the last delay for
/// each further one.
pub fn error_policy(_error: &Error, failures: u32) -> (action: Action)
    ensures
        action == Action::Requeue(capped_seconds(backoff_seconds(failures as nat))),
{
    let mut delay: u64 = ERROR_REQUEUE_SECONDS;
    let mut counted: u32 = 1;
    while counted < failures && delay < u64::MAX
        invariant
            1 <= counted,
            counted <= failures || failures == 0,
            failures == 0 ==> counted == 1,
            delay == capped_seconds(backoff_seconds(counted as nat)),
        decreases failures - counted,
    {
        proof {
            lemma_backoff_grows(counted as nat);
        }
        delay = match delay.checked_mul(2) {
            Some(doubled) => doubled,
            None => u64::MAX,
        };
        counted += 1;
    }
    proof {
        if failures == 0 {
            assert(counted == 1);
        } else {
            lemma_backoff_monotone(counted as nat, failures as nat);
        }
    }
    Action::Requeue(delay)
}

/// A resource whose declaration maps to one entity of the management
/// API: a user, a folder or an administrator.
pub trait SftpgoResource {
    /// The status that the controller records on the resource.
    type Status: SftpgoStatus;

    /// The name of the entity on the server.
    spec fn spec_name(&self) -> Seq<char>;

    /// The metadata of the resource.
    spec fn spec_metadata(&self) -> ObjectMeta;

    /// The recorded status, if any.
    spec fn spec_status(&self) -> Option<Self::Status>;

    /// The server that the resource belongs to.
    spec fn spec_server_reference(&self) -> ServerReference;

    /// The kind of entity.
    spec fn spec_kind() -> EntityKind;

    /// The kind of entity.
    fn kind() -> (k: EntityKind)
        ensures
            k == Self::spec_kind(),
    ;

    /// The name of the entity on the server.
    fn get_name(&self) -> (name: &str)
        ensures
            name@ == self.spec_name(),
    ;

    /// The metadata of the resource.
    fn get_metadata(&self) -> (meta: &ObjectMeta)
        ensures
            *meta == self.spec_metadata(),
    ;

    /// The server that the resource belongs to.
    fn get_server_reference(&self) -> (r: &ServerReference)
        ensures
            *r == self.spec_server_reference(),
    ;

    /// The recorded status, if any.
    fn get_status(&self) -> (status: &Option<Self::Status>)
        ensures
            *status == self.spec_status(),
    ;
}

/// The status that is recorded on a resource.
#[derive(Debug, Clone)]
pub struct RecordedStatus {
    /// The name under which the entity was last written to the server.
    pub last_name: String,
    /// The identifier that the server gave the entity, once it has one.
    pub id: Option<i32>,
}

/// The model of a [`RecordedStatus`].
pub struct StatusView {
    pub last_name: Seq<char>,
    pub id: Option<i32>,
}

impl View for RecordedStatus {
    type V = StatusView;

    open spec fn view(&self) -> StatusView {
        StatusView { last_name: self.last_name@, id: self.id }
    }
}

/// What a reconciliation reads off the resource that it works on.
#[derive(Debug, Clone)]
pub struct Observed {
    /// The name that the resource declares for its entity.
    pub name: String,
    /// Whether deletion of the resource was asked for.
    pub deleting: bool,
    /// The finalizers that the resource carries.
    pub finalizers: Vec<String>,
    /// The recorded status, if any.
    pub status: Option<RecordedStatus>,
}

/// The model of an optional status.
pub open spec fn optional_status(s: Option<RecordedStatus>) -> Option<StatusView> {
    match s {
        Some(x) => Some(x@),
        None => None,
    }
}

/// The model of an [`Observed`].
pub struct ObservedView {
    pub name: Seq<char>,
    pub deleting: bool,
    pub finalizers: Seq<Seq<char>>,
    pub status: Option<StatusView>,
}

impl View for Observed {
    type V = ObservedView;

    open spec fn view(&self) -> ObservedView {
        ObservedView {
            name: self.name@,
            deleting: self.deleting,
            finalizers: names(self.finalizers@),
            status: optional_status(self.status),
        }
    }
}

/// What a resource shows to a reconciliation.
pub open spec fn observation<R: SftpgoResource>(resource: R) -> ObservedView {
    ObservedView {
        name: resource.spec_name(),
        deleting: resource.spec_metadata().deletion_timestamp.is_some(),
        finalizers: resource.spec_metadata().spec_finalizers(),
        status: match resource.spec_status() {
            Some(s) => Some(StatusView { last_name: s.last_name(), id: s.id() }),
            None => None,
        },
    }
}

/// Reads off a resource what a reconciliation works on.
pub fn observe<R: SftpgoResource>(resource: &R) -> (observed: Observed)
    ensures
        observed@ == observation(*resource),
{
    let status = match resource.get_status() {
        Some(s) => Some(RecordedStatus { last_name: s.get_last_name().to_owned(), id: s.get_id() }),
        None => None,
    };
    let finalizers = match &resource.get_metadata().finalizers {
        Some(list) => copy_names(list),
        None => {
            let empty: Vec<String> = Vec::new();
            proof {
                assert(names(empty@) =~= Seq::<Seq<char>>::empty());
            }
            empty
        },
    };
    Observed {
        name: resource.get_name().to_owned(),
        deleting: resource.get_metadata().is_being_deleted(),
        finalizers,
        status,
    }
}

/// Where a reconciliation stands: what it waits for.
#[derive(Debug, Clone, Copy, PartialEq, Eq, Structural)]
pub enum Phase {
    /// The resource as the cluster holds it now.
    Fetching,
    /// An authorized client of the server that the resource refers to.
    Connecting,
    /// Deletion: the entity under its last recorded name to be gone.
    DeletingStale,
    /// Deletion: the entity under its declared name to be gone.
    DeletingCurrent,
    /// Deletion: the finalizer to be taken off.
    RemovingFinalizer,
    /// The finalizer to be put on.
    AddingFinalizer,
    /// Rename: the entity under its last recorded name to be gone.
    DeletingRenamed,
    /// The declared name to be recorded in the status.
    RecordingName,
    /// The request for the management API to be built.
    BuildingRequest,
    /// The answer whether the entity exists.
    LookingUp,
    /// The entity to be updated.
    Updating,
    /// The entity to be created.
    Creating,
    /// The identifier of the created entity to be recorded.
    RecordingIdentifier,
    /// Nothing: the reconciliation is over.
    Finished,
}

/// A reconciliation of one resource.
#[derive(Debug)]
pub struct Reconciliation {
    pub phase: Phase,
    /// What was read off the resource, once it was fetched; the status
    /// is the one that the controller last asked to record.
    pub observed: Option<Observed>,
}

/// The model of a [`Reconciliation`].
pub struct ReconciliationView {
    pub phase: Phase,
    pub observed: Option<ObservedView>,
}

impl View for Reconciliation {
    type V = ReconciliationView;

    open spec fn view(&self) -> ReconciliationView {
        ReconciliationView {
            phase: self.phase,
            observed: match self.observed {
                Some(o) => Some(o@),
                None => None,
            },
        }
    }
}

/// What happened to the last command.
#[derive(Debug)]
pub enum Event {
    /// The resource was fetched.
    Fetched(Observed),
    /// An authorized client is at hand.
    Connected,
    /// The deletion or the patch was carried out.
    Done,
    /// The request was built.
    RequestBuilt,
    /// The lookup was answered: whether the entity exists.
    Found(bool),
    /// The entity was created, with this identifier.
    Created(i32),
    /// The command failed.
    Failed(Error),
}

/// The model of an [`Event`]: the error of a failure is left out.
pub enum EventView {
    Fetched(ObservedView),
    Connected,
    Done,
    RequestBuilt,
    Found(bool),
    Created(i32),
    Failed,
}

impl View for Event {
    type V = EventView;

    open spec fn view(&self) -> EventView {
        match self {
            Event::Fetched(o) => EventView::Fetched(o@),
            Event::Connected => EventView::Connected,
            Event::Done => EventView::Done,
            Event::RequestBuilt => EventView::RequestBuilt,
            Event::Found(b) => EventView::Found(*b),
            Event::Created(id) => EventView::Created(*id),
            Event::Failed(_) => EventView::Failed,
        }
    }
}

/// What is to be done next.
#[derive(Debug)]
pub enum Command {
    /// Fetch the resource by name and namespace.
    Fetch,
    /// Obtain an authorized client for the server reference.
    Connect,
    /// Delete the entity of this name on the server.
    DeleteEntity(String),
    /// Take the controller's finalizer off the resource: patch its
    /// finalizers to this list.
    RemoveFinalizer(FinalizerPatch),
    /// Put the controller's finalizer on the resource: patch its
    /// finalizers to this list.
    AddFinalizer(FinalizerPatch),
    /// Record this status on the resource.
    PatchStatus(RecordedStatus),
    /// Build the request for the management API.
    BuildRequest,
    /// Ask the server whether the entity of this name exists.
    Lookup(String),
    /// Update the entity with the request.
    Update,
    /// Create the entity from the request.
    Create,
    /// The reconciliation succeeded; hand this action to the scheduler.
    Finish(Action),
    /// The reconciliation failed with this error.
    Fail(Error),
}

/// The model of a [`Command`]: the error of a failure is left out.
pub enum CommandView {
    Fetch,
    Connect,
    DeleteEntity(Seq<char>),
    RemoveFinalizer(Seq<Seq<char>>),
    AddFinalizer(Seq<Seq<char>>),
    PatchStatus(StatusView),
    BuildRequest,
    Lookup(Seq<char>),
    Update,
    Create,
    Finish(Action),
    Fail,
}

impl View for Command {
    type V = CommandView;

    open spec fn view(&self) -> CommandView {
        match self {
            Command::Fetch => CommandView::Fetch,
            Command::Connect => CommandView::Connect,
            Command::DeleteEntity(n) => CommandView::DeleteEntity(n@),
            Command::RemoveFinalizer(p) => CommandView::RemoveFinalizer(p@),
            Command::AddFinalizer(p) => CommandView::AddFinalizer(p@),
            Command::PatchStatus(s) => CommandView::PatchStatus(s@),
            Command::BuildRequest => CommandView::BuildRequest,
            Command::Lookup(n) => CommandView::Lookup(n@),
            Command::Update => CommandView::Update,
            Command::Create => CommandView::Create,
            Command::Finish(a) => CommandView::Finish(*a),
            Command::Fail(_) => CommandView::Fail,
        }
    }
}

/// The end of a reconciliation in failure.
pub open spec fn failed(observed: Option<ObservedView>) -> (ReconciliationView, CommandView) {
    (ReconciliationView { phase: Phase::Finished, observed }, CommandView::Fail)
}

/// What follows once the finalizer is on the resource: a recorded name
/// that differs from the declared one means a rename, whose first step
/// deletes the entity under the recorded name; a resource without
/// status gets one with the declared name and no identifier; else the
/// request is built.
pub open spec fn after_finalizer(o: ObservedView) -> (ReconciliationView, CommandView) {
    match o.status {
        Some(status) => if status.last_name != o.name {
            (
                ReconciliationView { phase: Phase::DeletingRenamed, observed: Some(o) },
                CommandView::DeleteEntity(status.last_name),
            )
        } else {
            (
                ReconciliationView { phase: Phase::BuildingRequest, observed: Some(o) },
                CommandView::BuildRequest,
            )
        },
        None => {
            let status = StatusView { last_name: o.name, id: None };
            (
                ReconciliationView {
                    phase: Phase::RecordingName,
                    observed: Some(ObservedView { status: Some(status), ..o }),
                },
                CommandView::PatchStatus(status),
            )
        },
    }
}

/// What follows once an authorized client is at hand. A resource that
/// is being deleted has its entity deleted, first under a recorded
/// name that differs from the declared one, then under the declared
/// name. Any other resource gets the controller's finalizer where it
/// does not carry it, beside the finalizers that it carries.
pub open spec fn after_connecting(o: ObservedView) -> (ReconciliationView, CommandView) {
    if o.deleting {
        match o.status {
            Some(status) => if status.last_name != o.name {
                (
                    ReconciliationView { phase: Phase::DeletingStale, observed: Some(o) },
                    CommandView::DeleteEntity(status.last_name),
                )
            } else {
                (
                    ReconciliationView { phase: Phase::DeletingCurrent, observed: Some(o) },
                    CommandView::DeleteEntity(o.name),
                )
            },
            None => (
                ReconciliationView { phase: Phase::DeletingCurrent, observed: Some(o) },
                CommandView::DeleteEntity(o.name),
            ),
        }
    } else if !has_finalizer(o.finalizers) {
        (
            ReconciliationView { phase: Phase::AddingFinalizer, observed: Some(o) },
            CommandView::AddFinalizer(with_finalizer(o.finalizers)),
        )
    } else {
        after_finalizer(o)
    }
}

/// The next state and command of a reconciliation that has read its
/// resource, for an event that is no failure.
pub open spec fn transition_observed(phase: Phase, o: ObservedView, event: EventView) -> (
    ReconciliationView,
    CommandView,
) {
    match (phase, event) {
        (Phase::Connecting, EventView::Connected) => after_connecting(o),
        (Phase::DeletingStale, EventView::Done) => (
            ReconciliationView { phase: Phase::DeletingCurrent, observed: Some(o) },
            CommandView::DeleteEntity(o.name),
        ),
        (Phase::DeletingCurrent, EventView::Done) => if has_finalizer(o.finalizers) {
            (
                ReconciliationView { phase: Phase::RemovingFinalizer, observed: Some(o) },
                CommandView::RemoveFinalizer(without_finalizer(o.finalizers)),
            )
        } else {
            (
                ReconciliationView { phase: Phase::Finished, observed: Some(o) },
                CommandView::Finish(Action::AwaitChange),
            )
        },
        (Phase::RemovingFinalizer, EventView::Done) => (
            ReconciliationView {
                phase: Phase::Finished,
                observed: Some(ObservedView { finalizers: without_finalizer(o.finalizers), ..o }),
            },
            CommandView::Finish(Action::AwaitChange),
        ),
        (Phase::AddingFinalizer, EventView::Done) => after_finalizer(
            ObservedView { finalizers: with_finalizer(o.finalizers), ..o },
        ),
        (Phase::DeletingRenamed, EventView::Done) => {
            let status = StatusView {
                last_name: o.name,
                id: match o.status {
                    Some(s) => s.id,
                    None => None,
                },
            };
            (
                ReconciliationView {
                    phase: Phase::RecordingName,
                    observed: Some(ObservedView { status: Some(status), ..o }),
                },
                CommandView::PatchStatus(status),
            )
        },
        (Phase::RecordingName, EventView::Done) => (
            ReconciliationView { phase: Phase::BuildingRequest, observed: Some(o) },
            CommandView::BuildRequest,
        ),
        (Phase::BuildingRequest, EventView::RequestBuilt) => (
            ReconciliationView { phase: Phase::LookingUp, observed: Some(o) },
            CommandView::Lookup(o.name),
        ),
        (Phase::LookingUp, EventView::Found(exists)) => if exists {
            (ReconciliationView { phase: Phase::Updating, observed: Some(o) }, CommandView::Update)
        } else {
            (ReconciliationView { phase: Phase::Creating, observed: Some(o) }, CommandView::Create)
        },
        (Phase::Updating, EventView::Done) => (
            ReconciliationView { phase: Phase::Finished, observed: Some(o) },
            CommandView::Finish(Action::AwaitChange),
        ),
        (Phase::Creating, EventView::Created(id)) => {
            let status = StatusView { last_name: o.name, id: Some(id) };
            (
                ReconciliationView {
                    phase: Phase::RecordingIdentifier,
                    observed: Some(ObservedView { status: Some(status), ..o }),
                },
                CommandView::PatchStatus(status),
            )
        },
        (Phase::RecordingIdentifier, EventView::Done) => (
            ReconciliationView { phase: Phase::Finished, observed: Some(o) },
            CommandView::Finish(Action::AwaitChange),
        ),
        _ => failed(Some(o)),
    }
}

/// The next state and command of a reconciliation. A failure, and an
/// event that the phase does not wait for, end it in failure.
pub open spec fn transition(state: ReconciliationView, event: EventView) -> (
    ReconciliationView,
    CommandView,
) {
    match (state.phase, event) {
        (Phase::Fetching, EventView::Fetched(o)) => (
            ReconciliationView { phase: Phase::Connecting, observed: Some(o) },
            CommandView::Connect,
        ),
        _ => match state.observed {
            Some(o) => transition_observed(state.phase, o, event),
            None => failed(None),
        },
    }
}

/// The message of the failure for an event that the phase does not
/// wait for.
pub open spec fn unexpected_event_message() -> Seq<char> {
    "the event does not answer the command that was given"@
}

/// The reconciliation as it begins, and its first command. A resource
/// without namespace is refused.
pub open spec fn beginning(namespace: Option<String>) -> (ReconciliationView, CommandView) {
    match namespace {
        Some(_) => (ReconciliationView { phase: Phase::Fetching, observed: None }, CommandView::Fetch),
        None => failed(None),
    }
}

impl Reconciliation {
    fn command(&mut self, phase: Phase, command: Command) -> (r: Command)
        ensures
            r == command,
            final(self).phase == phase,
            final(self).observed == old(self).observed,
    {
        self.phase = phase;
        command
    }

    fn unexpected(&mut self) -> (r: Command)
        ensures
            r matches Command::Fail(Error::Kube { source }) && source@ == unexpected_event_message(),
            final(self).phase == Phase::Finished,
            final(self).observed == old(self).observed,
    {
        self.phase = Phase::Finished;
        Command::Fail(
            Error::Kube {
                source: "the event does not answer the command that was given".to_owned(),
            },
        )
    }

    fn record(&mut self, phase: Phase, id: Option<i32>) -> (r: Command)
        requires
            old(self).observed is Some,
        ensures
            r@ == CommandView::PatchStatus(
                StatusView { last_name: old(self)@.observed->0.name, id },
            ),
            final(self)@ == (ReconciliationView {
                phase,
                observed: Some(
                    ObservedView {
                        status: Some(StatusView { last_name: old(self)@.observed->0.name, id }),
                        ..old(self)@.observed->0
                    },
                ),
            }),
    {
        self.phase = phase;
        match &mut self.observed {
            Some(o) => {
                let recorded = RecordedStatus { last_name: o.name.clone(), id };
                o.status = Some(RecordedStatus { last_name: o.name.clone(), id });
                Command::PatchStatus(recorded)
            },
            None => Command::BuildRequest,
        }
    }

    fn continue_after_finalizer(&mut self) -> (r: Command)
        requires
            old(self).observed is Some,
        ensures
            (final(self)@, r@) == after_finalizer(old(self)@.observed->0),
    {
        let renamed_from = match &self.observed {
            Some(o) => match &o.status {
                Some(status) => if !crate::text::str_eq(status.last_name.as_str(), o.name.as_str()) {
                    Some(Some(status.last_name.clone()))
                } else {
                    Some(None)
                },
                None => None,
            },
            None => None,
        };
        match renamed_from {
            Some(Some(last_name)) => self.command(
                Phase::DeletingRenamed,
                Command::DeleteEntity(last_name),
            ),
            Some(None) => self.command(Phase::BuildingRequest, Command::BuildRequest),
            None => self.record(Phase::RecordingName, None),
        }
    }

    fn continue_after_connecting(&mut self) -> (r: Command)
        requires
            old(self).observed is Some,
        ensures
            (final(self)@, r@) == after_connecting(old(self)@.observed->0),
    {
        let (deleting, adding, name, stale) = match &self.observed {
            Some(o) => (
                o.deleting,
                if carries_finalizer(&o.finalizers) {
                    None
                } else {
                    Some(put_on(&o.finalizers))
                },
                o.name.clone(),
                match &o.status {
                    Some(status) => if !crate::text::str_eq(
                        status.last_name.as_str(),
                        o.name.as_str(),
                    ) {
                        Some(status.last_name.clone())
                    } else {
                        None
                    },
                    None => None,
                },
            ),
            None => (false, None, String::new(), None),
        };
        if deleting {
            match stale {
                Some(last_name) => self.command(
                    Phase::DeletingStale,
                    Command::DeleteEntity(last_name),
                ),
                None => self.command(Phase::DeletingCurrent, Command::DeleteEntity(name)),
            }
        } else {
            match adding {
                Some(patch) => self.command(Phase::AddingFinalizer, Command::AddFinalizer(patch)),
                None => self.continue_after_finalizer(),
            }
        }
    }

    fn set_finalizers(&mut self, patch: FinalizerPatch)
        requires
            old(self).observed is Some,
        ensures
            final(self).phase == old(self).phase,
            final(self)@.observed == Some(
                ObservedView { finalizers: patch@, ..old(self)@.observed->0 },
            ),
    {
        match &mut self.observed {
            Some(o) => {
                o.finalizers = patch.finalizers;
            },
            None => {},
        }
    }

    fn adding_patch(&self) -> (patch: FinalizerPatch)
        requires
            self.observed is Some,
        ensures
            patch@ == with_finalizer(self@.observed->0.finalizers),
    {
        match &self.observed {
            Some(o) => put_on(&o.finalizers),
            None => FinalizerPatch { finalizers: Vec::new() },
        }
    }

    fn without_patch(&self) -> (patch: FinalizerPatch)
        requires
            self.observed is Some,
        ensures
            patch@ == without_finalizer(self@.observed->0.finalizers),
    {
        match &self.observed {
            Some(o) => take_off(&o.finalizers),
            None => FinalizerPatch { finalizers: Vec::new() },
        }
    }

    fn removing_patch(&self) -> (patch: Option<FinalizerPatch>)
        requires
            self.observed is Some,
        ensures
            match patch {
                Some(p) => has_finalizer(self@.observed->0.finalizers) && p@ == without_finalizer(
                    self@.observed->0.finalizers,
                ),
                None => !has_finalizer(self@.observed->0.finalizers),
            },
    {
        match &self.observed {
            Some(o) => if carries_finalizer(&o.finalizers) {
                Some(take_off(&o.finalizers))
            } else {
                None
            },
            None => None,
        }
    }

    fn name(&self) -> (r: String)
        requires
            self.observed is Some,
        ensures
            r@ == self@.observed->0.name,
    {
        match &self.observed {
            Some(o) => o.name.clone(),
            None => String::new(),
        }
    }

    fn recorded_id(&self) -> (r: Option<i32>)
        requires
            self.observed is Some,
        ensures
            r == match self@.observed->0.status {
                Some(s) => s.id,
                None => None,
            },
    {
        match &self.observed {
            Some(o) => match &o.status {
                Some(s) => s.id,
                None => None,
            },
            None => None,
        }
    }

    /// Takes the reconciliation one step on: given what happened to the
    /// last command, the next command.
    ///
    /// A failure ends the reconciliation with the error of the event.
    /// An event that the phase does not wait for ends it with an error
    /// of its own. The steps in between are those of [`transition`].
    pub fn step(&mut self, event: Event) -> (command: Command)
        ensures
            (final(self)@, command@) == transition(old(self)@, event@),
            event matches Event::Failed(e) ==> command == Command::Fail(e),
            command is Fail && !(event is Failed) ==> (command matches Command::Fail(
                Error::Kube { source },
            ) && source@ == unexpected_event_message()),
    {
        match event {
            Event::Failed(e) => {
                self.phase = Phase::Finished;
                Command::Fail(e)
            },
            Event::Fetched(o) => {
                if self.phase == Phase::Fetching {
                    self.observed = Some(o);
                    self.command(Phase::Connecting, Command::Connect)
                } else {
                    self.unexpected()
                }
            },
            Event::Connected => {
                if self.phase == Phase::Connecting && self.observed.is_some() {
                    self.continue_after_connecting()
                } else {
                    self.unexpected()
                }
            },
            Event::Done => {
                if self.observed.is_none() {
                    return self.unexpected();
                }
                match self.phase {
                    Phase::DeletingStale => {
                        let name = self.name();
                        self.command(Phase::DeletingCurrent, Command::DeleteEntity(name))
                    },
                    Phase::DeletingCurrent => match self.removing_patch() {
                        Some(patch) => self.command(
                            Phase::RemovingFinalizer,
                            Command::RemoveFinalizer(patch),
                        ),
                        None => self.command(
                            Phase::Finished,
                            Command::Finish(Action::AwaitChange),
                        ),
                    },
                    Phase::RemovingFinalizer => {
                        let left = self.without_patch();
                        self.set_finalizers(left);
                        self.command(Phase::Finished, Command::Finish(Action::AwaitChange))
                    },
                    Phase::AddingFinalizer => {
                        let carried = self.adding_patch();
                        self.set_finalizers(carried);
                        self.continue_after_finalizer()
                    },
                    Phase::DeletingRenamed => {
                        let id = self.recorded_id();
                        self.record(Phase::RecordingName, id)
                    },
                    Phase::RecordingName => self.command(
                        Phase::BuildingRequest,
                        Command::BuildRequest,
                    ),
                    Phase::Updating => self.command(
                        Phase::Finished,
                        Command::Finish(Action::AwaitChange),
                    ),
                    Phase::RecordingIdentifier => self.command(
                        Phase::Finished,
                        Command::Finish(Action::AwaitChange),
                    ),
                    _ => self.unexpected(),
                }
            },
            Event::RequestBuilt => {
                if self.phase == Phase::BuildingRequest && self.observed.is_some() {
                    let name = self.name();
                    self.command(Phase::LookingUp, Command::Lookup(name))
                } else {
                    self.unexpected()
                }
            },
            Event::Found(exists) => {
                if self.phase == Phase::LookingUp && self.observed.is_some() {
                    if exists {
                        self.command(Phase::Updating, Command::Update)
                    } else {
                        self.command(Phase::Creating, Command::Create)
                    }
                } else {
                    self.unexpected()
                }
            },
            Event::Created(id) => {
                if self.phase == Phase::Creating && self.observed.is_some() {
                    self.record(Phase::RecordingIdentifier, Some(id))
                } else {
                    self.unexpected()
                }
            },
        }
    }
}

/// Begins the reconciliation of a user, folder or administrator
/// resource: the first command is to fetch the resource afresh. A
/// resource without namespace is refused.
pub fn sftpgo_api_resource_reconciler<TCrd: SftpgoResource>(resource: &TCrd, kind_name: &str) -> (r: (
    Reconciliation,
    Command,
))
    ensures
        (r.0@, r.1@) == beginning(resource.spec_metadata().namespace),
        resource.spec_metadata().namespace is None ==> (r.1 matches Command::Fail(
            Error::UserInput(m),
        ) && m@ == namespace_message(kind_name@)),
{
    if resource.get_metadata().namespace.is_none() {
        let mut message = concat("Expected ", kind_name);
        message.append(" resource to be namespaced. Can't deploy to unknown namespace.");
        return (
            Reconciliation { phase: Phase::Finished, observed: None },
            Command::Fail(Error::UserInput(message)),
        );
    }
    (Reconciliation { phase: Phase::Fetching, observed: None }, Command::Fetch)
}

} // verus!

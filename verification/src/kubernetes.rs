//! The parts of Kubernetes objects that the controller reads and
//! renders, as plain values.

use crate::string_map::{text_map, StringMap};
use vstd::prelude::*;

verus! {

/// The metadata of a watched resource, as far as the controller reads it.
#[derive(Debug, Clone, PartialEq, Default)]
pub struct ObjectMeta {
    pub name: Option<String>,
    pub generate_name: Option<String>,
    pub namespace: Option<String>,
    pub uid: Option<String>,
    /// When deletion was asked for, if it was.
    pub deletion_timestamp: Option<String>,
    pub finalizers: Option<Vec<String>>,
}

/// The text of an optional text.
pub open spec fn optional_text(s: Option<String>) -> Option<Seq<char>> {
    match s {
        Some(t) => Some(t@),
        None => None,
    }
}

/// A copy of an optional text.
pub fn clone_optional_text(s: &Option<String>) -> (r: Option<String>)
    ensures
        optional_text(r) == optional_text(*s),
{
    match s {
        Some(t) => Some(t.clone()),
        None => None,
    }
}

impl ObjectMeta {
    /// The name by which the resource is spoken of: its name, else the
    /// prefix its name is generated from, else the empty text.
    pub open spec fn spec_name_any(&self) -> Seq<char> {
        match self.name {
            Some(n) => n@,
            None => match self.generate_name {
                Some(g) => g@,
                None => Seq::empty(),
            },
        }
    }

    /// The name by which the resource is spoken of.
    pub fn name_any(&self) -> (r: String)
        ensures
            r@ == self.spec_name_any(),
    {
        match &self.name {
            Some(n) => n.clone(),
            None => match &self.generate_name {
                Some(g) => g.clone(),
                None => String::new(),
            },
        }
    }

    /// Whether deletion of the resource was asked for.
    pub fn is_being_deleted(&self) -> (b: bool)
        ensures
            b == self.deletion_timestamp.is_some(),
    {
        self.deletion_timestamp.is_some()
    }

    /// The finalizers that the resource carries, in order; none where it
    /// has no list.
    pub open spec fn spec_finalizers(&self) -> Seq<Seq<char>> {
        match self.finalizers {
            Some(f) => f@.map_values(|s: String| s@),
            None => Seq::empty(),
        }
    }
}

/// A reference from a rendered object to the resource that owns it.
#[derive(Debug, Clone)]
pub struct OwnerReference {
    pub api_version: String,
    pub kind: String,
    pub name: String,
    pub uid: String,
    /// Whether the owner is the managing controller.
    pub controller: bool,
}

/// The model of an [`OwnerReference`].
pub struct OwnerReferenceView {
    pub api_version: Seq<char>,
    pub kind: Seq<char>,
    pub name: Seq<char>,
    pub uid: Seq<char>,
    pub controller: bool,
}

impl View for OwnerReference {
    type V = OwnerReferenceView;

    open spec fn view(&self) -> OwnerReferenceView {
        OwnerReferenceView {
            api_version: self.api_version@,
            kind: self.kind@,
            name: self.name@,
            uid: self.uid@,
            controller: self.controller,
        }
    }
}

impl OwnerReference {
    /// A copy of the reference.
    pub fn duplicate(&self) -> (r: Self)
        ensures
            r@ == self@,
    {
        OwnerReference {
            api_version: self.api_version.clone(),
            kind: self.kind.clone(),
            name: self.name.clone(),
            uid: self.uid.clone(),
            controller: self.controller,
        }
    }
}

/// A port that a container listens on.
#[derive(Debug, Clone, Default)]
pub struct ContainerPort {
    pub name: Option<String>,
    pub container_port: i64,
    pub protocol: Option<String>,
}

/// The model of a [`ContainerPort`].
pub struct ContainerPortView {
    pub name: Option<Seq<char>>,
    pub container_port: int,
    pub protocol: Option<Seq<char>>,
}

impl View for ContainerPort {
    type V = ContainerPortView;

    open spec fn view(&self) -> ContainerPortView {
        ContainerPortView {
            name: optional_text(self.name),
            container_port: self.container_port as int,
            protocol: optional_text(self.protocol),
        }
    }
}

impl ContainerPort {
    /// A copy of the port.
    pub fn duplicate(&self) -> (r: Self)
        ensures
            r@ == self@,
    {
        ContainerPort {
            name: clone_optional_text(&self.name),
            container_port: self.container_port,
            protocol: clone_optional_text(&self.protocol),
        }
    }
}

/// The models of a list of container ports.
pub open spec fn container_ports_view(ports: Seq<ContainerPort>) -> Seq<ContainerPortView> {
    ports.map_values(|p: ContainerPort| p@)
}

/// A port that a Service exposes.
#[derive(Debug, Clone, Default)]
pub struct ServicePort {
    pub name: Option<String>,
    pub protocol: Option<String>,
    pub port: i64,
    /// The container port that traffic goes to, by its name.
    pub target_port: Option<String>,
}

/// The model of a [`ServicePort`].
pub struct ServicePortView {
    pub name: Option<Seq<char>>,
    pub protocol: Option<Seq<char>>,
    pub port: int,
    pub target_port: Option<Seq<char>>,
}

impl View for ServicePort {
    type V = ServicePortView;

    open spec fn view(&self) -> ServicePortView {
        ServicePortView {
            name: optional_text(self.name),
            protocol: optional_text(self.protocol),
            port: self.port as int,
            target_port: optional_text(self.target_port),
        }
    }
}

/// The models of a list of service ports.
pub open spec fn service_ports_view(ports: Seq<ServicePort>) -> Seq<ServicePortView> {
    ports.map_values(|p: ServicePort| p@)
}

/// A key of a Secret that an environment variable takes its value from.
#[derive(Debug, Clone, Default)]
pub struct SecretKeySelector {
    pub name: Option<String>,
    pub key: String,
}

/// An environment variable of a container: either a literal value or a
/// key of a Secret.
#[derive(Debug, Clone, Default)]
pub struct EnvVar {
    pub name: String,
    pub value: Option<String>,
    pub value_from: Option<SecretKeySelector>,
}

/// Where the model of an environment variable has its value from.
pub enum EnvSource {
    /// Neither a value nor a source.
    Unset,
    /// A literal value.
    Literal(Seq<char>),
    /// The key `key` of the Secret `secret`.
    SecretKey { secret: Option<Seq<char>>, key: Seq<char> },
    /// Both a value and a source, which Kubernetes refuses.
    Conflict,
}

/// The model of an [`EnvVar`].
pub struct EnvVarView {
    pub name: Seq<char>,
    pub source: EnvSource,
}

impl View for EnvVar {
    type V = EnvVarView;

    open spec fn view(&self) -> EnvVarView {
        EnvVarView {
            name: self.name@,
            source: match (self.value, self.value_from) {
                (None, None) => EnvSource::Unset,
                (Some(v), None) => EnvSource::Literal(v@),
                (None, Some(s)) => EnvSource::SecretKey {
                    secret: optional_text(s.name),
                    key: s.key@,
                },
                (Some(_), Some(_)) => EnvSource::Conflict,
            },
        }
    }
}

/// The models of a list of environment variables.
pub open spec fn env_view(env: Seq<EnvVar>) -> Seq<EnvVarView> {
    env.map_values(|e: EnvVar| e@)
}

/// The metadata of a rendered object.
#[derive(Debug, Clone, Default)]
pub struct ChildMeta {
    pub name: String,
    pub namespace: Option<String>,
    pub labels: StringMap<String>,
    pub owner_references: Vec<OwnerReference>,
}

/// The model of a [`ChildMeta`].
pub struct ChildMetaView {
    pub name: Seq<char>,
    pub namespace: Option<Seq<char>>,
    pub labels: Map<Seq<char>, Seq<char>>,
    pub owner_references: Seq<OwnerReferenceView>,
}

impl View for ChildMeta {
    type V = ChildMetaView;

    open spec fn view(&self) -> ChildMetaView {
        ChildMetaView {
            name: self.name@,
            namespace: optional_text(self.namespace),
            labels: text_map(self.labels),
            owner_references: self.owner_references@.map_values(|o: OwnerReference| o@),
        }
    }
}

/// The one container of the rendered pod.
#[derive(Debug, Clone, Default)]
pub struct Container {
    pub name: String,
    pub image: Option<String>,
    pub env: Vec<EnvVar>,
    pub ports: Vec<ContainerPort>,
}

/// The model of a [`Container`].
pub struct ContainerView {
    pub name: Seq<char>,
    pub image: Option<Seq<char>>,
    pub env: Seq<EnvVarView>,
    pub ports: Seq<ContainerPortView>,
}

impl View for Container {
    type V = ContainerView;

    open spec fn view(&self) -> ContainerView {
        ContainerView {
            name: self.name@,
            image: optional_text(self.image),
            env: env_view(self.env@),
            ports: container_ports_view(self.ports@),
        }
    }
}

/// The model of an optional map from text to text.
pub open spec fn optional_text_map(m: Option<StringMap<String>>) -> Option<
    Map<Seq<char>, Seq<char>>,
> {
    match m {
        Some(x) => Some(text_map(x)),
        None => None,
    }
}

/// The rendered Deployment.
#[derive(Debug, Clone, Default)]
pub struct Deployment {
    pub metadata: ChildMeta,
    pub replicas: Option<i32>,
    /// The labels that select the pods of the Deployment.
    pub selector: StringMap<String>,
    /// The labels of the pod template.
    pub template_labels: StringMap<String>,
    pub containers: Vec<Container>,
    pub node_selector: Option<StringMap<String>>,
}

/// The model of a [`Deployment`].
pub struct DeploymentView {
    pub metadata: ChildMetaView,
    pub replicas: Option<i32>,
    pub selector: Map<Seq<char>, Seq<char>>,
    pub template_labels: Map<Seq<char>, Seq<char>>,
    pub containers: Seq<ContainerView>,
    pub node_selector: Option<Map<Seq<char>, Seq<char>>>,
}

impl View for Deployment {
    type V = DeploymentView;

    open spec fn view(&self) -> DeploymentView {
        DeploymentView {
            metadata: self.metadata@,
            replicas: self.replicas,
            selector: text_map(self.selector),
            template_labels: text_map(self.template_labels),
            containers: self.containers@.map_values(|c: Container| c@),
            node_selector: optional_text_map(self.node_selector),
        }
    }
}

impl Deployment {
    /// No map of the Deployment has a key twice.
    pub open spec fn wf(&self) -> bool {
        &&& self.metadata.labels.wf()
        &&& self.selector.wf()
        &&& self.template_labels.wf()
        &&& self.node_selector matches Some(s) ==> s.wf()
    }
}

/// The rendered Service.
#[derive(Debug, Clone, Default)]
pub struct Service {
    pub metadata: ChildMeta,
    /// The labels that select the pods behind the Service.
    pub selector: StringMap<String>,
    pub ports: Vec<ServicePort>,
}

/// The model of a [`Service`].
pub struct ServiceView {
    pub metadata: ChildMetaView,
    pub selector: Map<Seq<char>, Seq<char>>,
    pub ports: Seq<ServicePortView>,
}

impl View for Service {
    type V = ServiceView;

    open spec fn view(&self) -> ServiceView {
        ServiceView {
            metadata: self.metadata@,
            selector: text_map(self.selector),
            ports: service_ports_view(self.ports@),
        }
    }
}

impl Service {
    /// No map of the Service has a key twice.
    pub open spec fn wf(&self) -> bool {
        &&& self.metadata.labels.wf()
        &&& self.selector.wf()
    }
}

/// The Secret that holds the administrator's credentials.
#[derive(Debug, Clone, Default)]
pub struct Secret {
    pub metadata: ChildMeta,
    /// The keys of the Secret with their values as text.
    pub string_data: StringMap<String>,
}

/// The model of a [`Secret`].
pub struct SecretView {
    pub metadata: ChildMetaView,
    pub string_data: Map<Seq<char>, Seq<char>>,
}

impl View for Secret {
    type V = SecretView;

    open spec fn view(&self) -> SecretView {
        SecretView { metadata: self.metadata@, string_data: text_map(self.string_data) }
    }
}

impl Secret {
    /// No map of the Secret has a key twice.
    pub open spec fn wf(&self) -> bool {
        &&& self.metadata.labels.wf()
        &&& self.string_data.wf()
    }
}

} // verus!

//! What the controller renders for a server resource: labels, ports, the
//! Service, the Deployment and the Secret with the administrator's
//! credentials.

use crate::crds::server::{
    FtpdBinding, HttpdBinding, SftpdBinding, SftpgoConfiguration, SftpgoServer, SftpgoServerSpec,
};
use crate::crds::value::ToValue;
use crate::crds::viper_environment_serializer::{
    lemma_supported_walk, pairs_of, walk, EnvPairView, ViperEnvironmentSerializer,
};
use crate::kubernetes::{
    clone_optional_text, container_ports_view, env_view, optional_text, service_ports_view,
    optional_text_map, ChildMeta, ChildMetaView, Container, ContainerPort, ContainerPortView,
    ContainerView, Deployment, DeploymentView, EnvSource, EnvVar, EnvVarView, ObjectMeta,
    OwnerReference, OwnerReferenceView, Secret, SecretKeySelector, SecretView, Service,
    ServicePort, ServicePortView, ServiceView,
};
use crate::operator::finalizers::{
    carries_finalizer, copy_names, has_finalizer, names, put_on, take_off, with_finalizer,
    without_finalizer, FinalizerPatch,
};
use crate::operator::reconciler::{Action, Error};
use crate::string_map::{copy_text_map, get_text, insert_text, text_map, StringMap};
use crate::text::{concat, decimal_int, i64_to_string, str_eq};
use vstd::prelude::*;
use vstd::string::StringExecFns;

verus! {

/// The image of the container where the resource names none.
pub const DEFAULT_IMAGE: &'static str = "drakkan/sftpgo:v2.5";

/// The key of the management URL in the credentials Secret.
pub const SECRET_KEY_URL: &'static str = "url";

/// The key of the administrator's name in the credentials Secret.
pub const SECRET_KEY_USERNAME: &'static str = "username";

/// The key of the administrator's password in the credentials Secret.
pub const SECRET_KEY_PASSWORD: &'static str = "password";

/// The API version of the custom resources.
pub const API_VERSION: &'static str = "sftpgo.zlepper.dk/v1alpha1";

/// The name under which the controller applies what it renders.
pub const FIELD_MANAGER: &'static str = "sftpgo-operator";

/// Seconds after which a reconciled server is looked at again.
pub const DRIFT_REQUEUE_SECONDS: u64 = 3600;

/// What is known of one server resource while it is reconciled.
#[derive(Debug)]
pub struct DeploymentController {
    pub name: String,
    pub namespace: String,
    pub owner_reference: OwnerReference,
    pub resource: SftpgoServerSpec,
}

/// The message for a server resource without namespace.
pub open spec fn server_namespace_message() -> Seq<char> {
    "Expected SftpgoServer resource to be namespaced. Can't deploy to unknown namespace."@
}

/// A container port named `<kind>-<number>`.
pub open spec fn port_named(kind: Seq<char>, number: int) -> ContainerPortView {
    ContainerPortView {
        name: Some(kind + "-"@ + decimal_int(number)),
        container_port: number,
        protocol: None,
    }
}

/// The number in an optional port, or the default.
pub open spec fn port_or(port: Option<i64>, default: int) -> int {
    match port {
        Some(p) => p as int,
        None => default,
    }
}

/// The HTTP bindings of a configuration, where it lists any.
pub open spec fn http_bindings(config: Option<SftpgoConfiguration>) -> Seq<HttpdBinding> {
    match config {
        Some(c) => match c.httpd {
            Some(h) => match h.bindings {
                Some(b) => b@,
                None => Seq::empty(),
            },
            None => Seq::empty(),
        },
        None => Seq::empty(),
    }
}

/// The SFTP bindings of a configuration, where it lists any.
pub open spec fn sftp_bindings(config: Option<SftpgoConfiguration>) -> Seq<SftpdBinding> {
    match config {
        Some(c) => match c.sftpd {
            Some(s) => match s.bindings {
                Some(b) => b@,
                None => Seq::empty(),
            },
            None => Seq::empty(),
        },
        None => Seq::empty(),
    }
}

/// The FTP bindings of a configuration, where it lists any.
pub open spec fn ftp_bindings(config: Option<SftpgoConfiguration>) -> Seq<FtpdBinding> {
    match config {
        Some(c) => match c.ftpd {
            Some(f) => match f.bindings {
                Some(b) => b@,
                None => Seq::empty(),
            },
            None => Seq::empty(),
        },
        None => Seq::empty(),
    }
}

/// The passive port range of a configuration: its two ends, where both
/// are given.
pub open spec fn passive_range(config: Option<SftpgoConfiguration>) -> Option<(int, int)> {
    match config {
        Some(c) => match c.ftpd {
            Some(f) => match f.passive_port_range {
                Some(r) => match (r.start, r.end) {
                    (Some(s), Some(e)) => Some((s as int, e as int)),
                    _ => None,
                },
                None => None,
            },
            None => None,
        },
        None => None,
    }
}

/// The number of ports in a passive range, both ends included; none
/// where the range ends before it starts.
pub open spec fn passive_count(range: Option<(int, int)>) -> nat {
    match range {
        Some((start, end)) => if start <= end {
            (end - start + 1) as nat
        } else {
            0
        },
        None => 0,
    }
}

/// The HTTP ports: one per binding, 8080 where a binding names none; the
/// single port 8080 where there is no binding.
pub open spec fn http_ports(config: Option<SftpgoConfiguration>) -> Seq<ContainerPortView> {
    if http_bindings(config).len() == 0 {
        seq![port_named("http"@, 8080)]
    } else {
        http_bindings(config).map_values(|b: HttpdBinding| port_named("http"@, port_or(b.port, 8080)))
    }
}

/// The SFTP ports: one per binding, 2022 where a binding names none.
pub open spec fn sftp_ports(config: Option<SftpgoConfiguration>) -> Seq<ContainerPortView> {
    sftp_bindings(config).map_values(|b: SftpdBinding| port_named("sftp"@, port_or(b.port, 2022)))
}

/// The FTP ports: one per binding, 21 where a binding names none.
pub open spec fn ftp_ports(config: Option<SftpgoConfiguration>) -> Seq<ContainerPortView> {
    ftp_bindings(config).map_values(|b: FtpdBinding| port_named("ftp"@, port_or(b.port, 21)))
}

/// The passive FTP data ports: every port of the range, in order.
pub open spec fn passive_ports(range: Option<(int, int)>) -> Seq<ContainerPortView> {
    match range {
        Some((start, end)) => Seq::new(
            passive_count(range),
            |i: int| port_named("ftp-data"@, start + i),
        ),
        None => Seq::empty(),
    }
}

/// The ports that the container listens on: HTTP, SFTP, FTP, then the
/// passive FTP data ports.
pub open spec fn expected_ports(config: Option<SftpgoConfiguration>) -> Seq<ContainerPortView> {
    http_ports(config) + sftp_ports(config) + ftp_ports(config) + passive_ports(
        passive_range(config),
    )
}

/// The number of HTTP ports: one per binding, and one where there is no
/// binding.
pub open spec fn http_port_count(config: Option<SftpgoConfiguration>) -> nat {
    if http_bindings(config).len() == 0 {
        1
    } else {
        http_bindings(config).len()
    }
}

/// The expected ports are as many as the HTTP bindings (one where there
/// is none), the SFTP bindings, the FTP bindings and the ports of the
/// passive range together.
pub proof fn lemma_expected_port_count(config: Option<SftpgoConfiguration>)
    ensures
        expected_ports(config).len() == http_port_count(config) + sftp_bindings(config).len()
            + ftp_bindings(config).len() + passive_count(passive_range(config)),
{
}

/// For a passive range whose end is not more than one below its start,
/// the number of its ports is the distance of its ends plus one.
pub proof fn lemma_passive_count(config: Option<SftpgoConfiguration>, start: int, end: int)
    requires
        passive_range(config) == Some((start, end)),
        start <= end + 1,
    ensures
        expected_ports(config).len() == http_port_count(config) + sftp_bindings(config).len()
            + ftp_bindings(config).len() + (end - start + 1),
{
}

/// The models of a list of ports with one more port are the models of
/// the list with the model of the port.
pub proof fn lemma_ports_push(ports: Seq<ContainerPort>, port: ContainerPort)
    ensures
        container_ports_view(ports.push(port)) == container_ports_view(ports).push(port@),
{
    assert(container_ports_view(ports.push(port)) =~= container_ports_view(ports).push(port@));
}

fn named_port(kind: &str, number: i64) -> (p: ContainerPort)
    ensures
        p@ == port_named(kind@, number as int),
{
    let digits = i64_to_string(number);
    let mut name = concat(kind, "-");
    name.append(digits.as_str());
    ContainerPort { name: Some(name), container_port: number, protocol: None }
}

fn port_or_default(port: &Option<i64>, default: i64) -> (p: i64)
    ensures
        p as int == port_or(*port, default as int),
{
    match port {
        Some(p) => *p,
        None => default,
    }
}

/// The labels of every rendered object: the labels that the resource
/// asks for, then `app` and `managed-by`, which override them.
pub open spec fn labels_of(name: Seq<char>, labels: Option<StringMap<String>>) -> Map<
    Seq<char>,
    Seq<char>,
> {
    let asked = match labels {
        Some(l) => text_map(l),
        None => Map::empty(),
    };
    asked.insert("app"@, name).insert("managed-by"@, "sftpgo-server-operator"@)
}

/// The Service port for a container port: same name and number, TCP
/// where the container port names no protocol, and the container port
/// as target, by name.
pub open spec fn service_port_of(p: ContainerPortView) -> ServicePortView {
    ServicePortView {
        name: p.name,
        protocol: match p.protocol {
            Some(x) => Some(x),
            None => Some("TCP"@),
        },
        port: p.container_port,
        target_port: p.name,
    }
}

/// The name of the Secret with the administrator's credentials.
pub open spec fn admin_secret_name(name: Seq<char>) -> Seq<char> {
    name + "-admin-user"@
}

/// The name of the Deployment.
pub open spec fn deployment_name(name: Seq<char>) -> Seq<char> {
    name + "-deployment"@
}

/// The environment variables that come from the configuration: one per
/// emitted pair, with the pair's value as a literal.
pub open spec fn configuration_env(pairs: Seq<EnvPairView>) -> Seq<EnvVarView> {
    pairs.map_values(|p: EnvPairView| EnvVarView { name: p.key, source: EnvSource::Literal(p.value) })
}

/// The three environment variables that make the server create its
/// default administrator from the credentials Secret.
pub open spec fn admin_env(secret: Seq<char>) -> Seq<EnvVarView> {
    seq![
        EnvVarView {
            name: "SFTPGO_DATA_PROVIDER__CREATE_DEFAULT_ADMIN"@,
            source: EnvSource::Literal("true"@),
        },
        EnvVarView {
            name: "SFTPGO_DEFAULT_ADMIN_USERNAME"@,
            source: EnvSource::SecretKey { secret: Some(secret), key: "username"@ },
        },
        EnvVarView {
            name: "SFTPGO_DEFAULT_ADMIN_PASSWORD"@,
            source: EnvSource::SecretKey { secret: Some(secret), key: "password"@ },
        },
    ]
}

/// The first HTTP binding of a configuration, if it has one.
pub open spec fn first_http_binding(config: Option<SftpgoConfiguration>) -> Option<HttpdBinding> {
    if http_bindings(config).len() > 0 {
        Some(http_bindings(config)[0])
    } else {
        None
    }
}

/// The URL under which the management API is reached inside the
/// cluster: `https` where the first HTTP binding enables it, else
/// `http`; the port of that binding, else 8080.
pub open spec fn management_url(
    name: Seq<char>,
    namespace: Seq<char>,
    config: Option<SftpgoConfiguration>,
) -> Seq<char> {
    let binding = first_http_binding(config);
    let port = match binding {
        Some(b) => port_or(b.port, 8080),
        None => 8080,
    };
    let secure = match binding {
        Some(b) => b.enable_https == Some(true),
        None => false,
    };
    let scheme = if secure {
        "https"@
    } else {
        "http"@
    };
    scheme + "://"@ + name + "."@ + namespace + ".svc:"@ + decimal_int(port)
}

/// The owner reference that makes a server resource the managing
/// controller of what is rendered for it.
pub open spec fn server_owner_reference(name: Seq<char>, uid: Seq<char>) -> OwnerReferenceView {
    OwnerReferenceView {
        api_version: "sftpgo.zlepper.dk/v1alpha1"@,
        kind: "SftpgoServer"@,
        name,
        uid,
        controller: true,
    }
}

fn http_bindings_of(config: &Option<SftpgoConfiguration>) -> (r: Option<&Vec<HttpdBinding>>)
    ensures
        match r {
            Some(b) => b@ == http_bindings(*config),
            None => http_bindings(*config).len() == 0,
        },
{
    match config {
        Some(c) => match &c.httpd {
            Some(h) => match &h.bindings {
                Some(b) => Some(b),
                None => None,
            },
            None => None,
        },
        None => None,
    }
}

impl DeploymentController {
    /// The label maps of the resource have no key twice.
    pub open spec fn wf(&self) -> bool {
        &&& self.resource.labels matches Some(l) ==> l.wf()
        &&& self.resource.node_selector matches Some(s) ==> s.wf()
    }

    /// What is known of a server resource. A resource without namespace
    /// is refused.
    pub fn new(resource: SftpgoServer) -> (r: Result<DeploymentController, Error>)
        requires
            resource.metadata.name is Some,
            resource.metadata.uid is Some,
        ensures
            match resource.metadata.namespace {
                Some(ns) => {
                    &&& r matches Ok(c)
                    &&& c.name@ == resource.metadata.spec_name_any()
                    &&& c.namespace@ == ns@
                    &&& c.owner_reference@ == server_owner_reference(
                        resource.metadata.name->0@,
                        resource.metadata.uid->0@,
                    )
                    &&& c.resource == resource.spec
                },
                None => r matches Err(Error::UserInput(m)) && m@ == server_namespace_message(),
            },
    {
        let name = resource.metadata.name_any();
        let SftpgoServer { metadata, spec } = resource;
        let namespace = match metadata.namespace {
            Some(ns) => ns,
            None => {
                return Err(
                    Error::UserInput(
                        "Expected SftpgoServer resource to be namespaced. Can't deploy to unknown namespace.".to_owned(),
                    ),
                );
            },
        };
        let owner_name = match metadata.name {
            Some(n) => n,
            None => String::new(),
        };
        let owner_uid = match metadata.uid {
            Some(u) => u,
            None => String::new(),
        };
        let owner_reference = OwnerReference {
            api_version: API_VERSION.to_owned(),
            kind: "SftpgoServer".to_owned(),
            name: owner_name,
            uid: owner_uid,
            controller: true,
        };
        Ok(DeploymentController { name, namespace, owner_reference, resource: spec })
    }

    /// The labels of every rendered object.
    pub fn get_labels(&self) -> (labels: StringMap<String>)
        requires
            self.wf(),
        ensures
            labels.wf(),
            text_map(labels) == labels_of(self.name@, self.resource.labels),
    {
        let mut labels = match &self.resource.labels {
            Some(l) => copy_text_map(l),
            None => {
                let empty: StringMap<String> = StringMap::new();
                assert(text_map(empty) =~= Map::<Seq<char>, Seq<char>>::empty());
                empty
            },
        };
        insert_text(&mut labels, "app", self.name.clone());
        insert_text(&mut labels, "managed-by", "sftpgo-server-operator".to_owned());
        labels
    }

    /// The ports that the container listens on.
    pub fn get_expected_ports(&self) -> (ports: Vec<ContainerPort>)
        ensures
            container_ports_view(ports@) == expected_ports(self.resource.configuration),
            ports@.len() == http_port_count(self.resource.configuration) + sftp_bindings(
                self.resource.configuration,
            ).len() + ftp_bindings(self.resource.configuration).len() + passive_count(
                passive_range(self.resource.configuration),
            ),
    {
        let ghost config = self.resource.configuration;
        let mut expected_ports: Vec<ContainerPort> = Vec::new();

        let http = http_bindings_of(&self.resource.configuration);
        let listed = match http {
            Some(b) => b.len() > 0,
            None => false,
        };
        if listed {
            let bindings = http.unwrap();
            let mut i: usize = 0;
            while i < bindings.len()
                invariant
                    i <= bindings.len(),
                    bindings@ == http_bindings(config),
                    bindings@.len() > 0,
                    container_ports_view(expected_ports@) == http_ports(config).take(i as int),
                decreases bindings.len() - i,
            {
                let port_number = port_or_default(&bindings[i].port, 8080);
                let port = named_port("http", port_number);
                proof {
                    lemma_ports_push(expected_ports@, port);
                    assert(http_ports(config).take(i as int).push(http_ports(config)[i as int])
                        =~= http_ports(config).take(i + 1));
                }
                expected_ports.push(port);
                i += 1;
            }
            assert(http_ports(config).take(i as int) =~= http_ports(config));
        } else {
            let port = named_port("http", 8080);
            proof {
                lemma_ports_push(expected_ports@, port);
                assert(container_ports_view(expected_ports@).push(port@) =~= http_ports(config));
            }
            expected_ports.push(port);
        }
        let ghost after_http = http_ports(config);

        if let Some(c) = &self.resource.configuration {
            if let Some(sftpd) = &c.sftpd {
                if let Some(bindings) = &sftpd.bindings {
                    let mut i: usize = 0;
                    while i < bindings.len()
                        invariant
                            i <= bindings.len(),
                            bindings@ == sftp_bindings(config),
                            container_ports_view(expected_ports@) == after_http + sftp_ports(
                                config,
                            ).take(i as int),
                        decreases bindings.len() - i,
                    {
                        let port_number = port_or_default(&bindings[i].port, 2022);
                        let port = named_port("sftp", port_number);
                        proof {
                            lemma_ports_push(expected_ports@, port);
                            assert((after_http + sftp_ports(config).take(i as int)).push(
                                sftp_ports(config)[i as int],
                            ) =~= after_http + sftp_ports(config).take(i + 1));
                        }
                        expected_ports.push(port);
                        i += 1;
                    }
                    assert(sftp_ports(config).take(i as int) =~= sftp_ports(config));
                }
            }
        }
        assert(container_ports_view(expected_ports@) =~= after_http + sftp_ports(config));
        let ghost after_sftp = after_http + sftp_ports(config);

        if let Some(c) = &self.resource.configuration {
            if let Some(ftpd) = &c.ftpd {
                if let Some(bindings) = &ftpd.bindings {
                    let mut i: usize = 0;
                    while i < bindings.len()
                        invariant
                            i <= bindings.len(),
                            bindings@ == ftp_bindings(config),
                            container_ports_view(expected_ports@) == after_sftp + ftp_ports(
                                config,
                            ).take(i as int),
                        decreases bindings.len() - i,
                    {
                        let port_number = port_or_default(&bindings[i].port, 21);
                        let port = named_port("ftp", port_number);
                        proof {
                            lemma_ports_push(expected_ports@, port);
                            assert((after_sftp + ftp_ports(config).take(i as int)).push(
                                ftp_ports(config)[i as int],
                            ) =~= after_sftp + ftp_ports(config).take(i + 1));
                        }
                        expected_ports.push(port);
                        i += 1;
                    }
                    assert(ftp_ports(config).take(i as int) =~= ftp_ports(config));
                }
            }
        }
        assert(container_ports_view(expected_ports@) =~= after_sftp + ftp_ports(config));
        let ghost after_ftp = after_sftp + ftp_ports(config);
        let ghost range = passive_range(config);

        if let Some(c) = &self.resource.configuration {
            if let Some(ftpd) = &c.ftpd {
                if let Some(passive_port_range) = &ftpd.passive_port_range {
                    if let (Some(start), Some(end)) = (
                        passive_port_range.start,
                        passive_port_range.end,
                    ) {
                        if start <= end {
                            let mut port_number: i64 = start;
                            loop
                                invariant_except_break
                                    start <= port_number <= end,
                                    range == Some((start as int, end as int)),
                                    container_ports_view(expected_ports@) == after_ftp
                                        + passive_ports(range).take(port_number - start),
                                ensures
                                    container_ports_view(expected_ports@) == after_ftp
                                        + passive_ports(range),
                                decreases end - port_number,
                            {
                                let port = named_port("ftp-data", port_number);
                                proof {
                                    lemma_ports_push(expected_ports@, port);
                                    assert((after_ftp + passive_ports(range).take(
                                        port_number - start,
                                    )).push(passive_ports(range)[port_number - start]) =~= after_ftp
                                        + passive_ports(range).take(port_number - start + 1));
                                }
                                expected_ports.push(port);
                                if port_number == end {
                                    proof {
                                        assert(passive_ports(range).take(port_number - start + 1)
                                            =~= passive_ports(range));
                                    }
                                    break ;
                                }
                                port_number += 1;
                            }
                        }
                    }
                }
            }
        }
        assert(container_ports_view(expected_ports@) =~= after_ftp + passive_ports(range));
        proof {
            lemma_expected_port_count(config);
            assert(container_ports_view(expected_ports@).len() == expected_ports@.len());
        }
        expected_ports
    }

    /// The name of the Deployment.
    pub fn get_deployment_name(&self) -> (r: String)
        ensures
            r@ == deployment_name(self.name@),
    {
        concat(self.name.as_str(), "-deployment")
    }

    /// The name of the Secret with the administrator's credentials.
    pub fn get_admin_user_secret_name(&self) -> (r: String)
        ensures
            r@ == admin_secret_name(self.name@),
    {
        concat(self.name.as_str(), "-admin-user")
    }

    /// The metadata of a rendered object: its name, the namespace where
    /// it is written out, the labels and the owner reference.
    pub open spec fn child_meta(&self, name: Seq<char>, namespace: Option<Seq<char>>) -> ChildMetaView {
        ChildMetaView {
            name,
            namespace,
            labels: labels_of(self.name@, self.resource.labels),
            owner_references: seq![self.owner_reference@],
        }
    }

    fn render_meta(&self, name: String, namespace: Option<String>) -> (meta: ChildMeta)
        requires
            self.wf(),
        ensures
            meta@ == self.child_meta(name@, optional_text(namespace)),
            meta.labels.wf(),
    {
        let mut owner_references: Vec<OwnerReference> = Vec::new();
        owner_references.push(self.owner_reference.duplicate());
        let meta = ChildMeta { name, namespace, labels: self.get_labels(), owner_references };
        proof {
            assert(meta@.owner_references =~= seq![self.owner_reference@]);
        }
        meta
    }

    /// The Service of this server: named as the server, the labels as
    /// selector, and one port per expected port.
    pub open spec fn expected_service(&self) -> ServiceView {
        ServiceView {
            metadata: self.child_meta(self.name@, Some(self.namespace@)),
            selector: labels_of(self.name@, self.resource.labels),
            ports: expected_ports(self.resource.configuration).map_values(
                |p: ContainerPortView| service_port_of(p),
            ),
        }
    }

    /// Whether `service` is the Service of this server.
    pub open spec fn is_expected_service(&self, service: Service) -> bool {
        service.wf() && service@ == self.expected_service()
    }

    /// The Service to apply for this server.
    pub fn ensure_service(&self) -> (service: Service)
        requires
            self.wf(),
        ensures
            self.is_expected_service(service),
    {
        let container_ports = self.get_expected_ports();
        let ghost wanted = expected_ports(self.resource.configuration).map_values(
            |p: ContainerPortView| service_port_of(p),
        );
        let mut expected_service_ports: Vec<ServicePort> = Vec::new();
        let mut i: usize = 0;
        while i < container_ports.len()
            invariant
                i <= container_ports.len(),
                container_ports_view(container_ports@) == expected_ports(
                    self.resource.configuration,
                ),
                wanted == expected_ports(self.resource.configuration).map_values(
                    |p: ContainerPortView| service_port_of(p),
                ),
                service_ports_view(expected_service_ports@) == wanted.take(i as int),
            decreases container_ports.len() - i,
        {
            let p = &container_ports[i];
            let protocol = match &p.protocol {
                Some(x) => Some(x.clone()),
                None => Some("TCP".to_owned()),
            };
            let port = ServicePort {
                name: clone_optional_text(&p.name),
                protocol,
                port: p.container_port,
                target_port: clone_optional_text(&p.name),
            };
            proof {
                assert(container_ports_view(container_ports@)[i as int] == p@);
                assert(port@ == service_port_of(p@));
                assert(service_ports_view(expected_service_ports@.push(port))
                    =~= service_ports_view(expected_service_ports@).push(port@));
                assert(wanted.take(i as int).push(wanted[i as int]) =~= wanted.take(i + 1));
            }
            expected_service_ports.push(port);
            i += 1;
        }
        assert(wanted.take(i as int) =~= wanted);
        Service {
            metadata: self.render_meta(self.name.clone(), Some(self.namespace.clone())),
            selector: self.get_labels(),
            ports: expected_service_ports,
        }
    }

    /// The image of the container: the one the resource names, else the
    /// default image.
    pub open spec fn image(&self) -> Seq<char> {
        match self.resource.image {
            Some(i) => i@,
            None => DEFAULT_IMAGE@,
        }
    }

    /// The Deployment of this server, given the pairs that its
    /// configuration flattens to: one container named `sftpgo` whose
    /// environment is made of those pairs and the three variables of
    /// the default administrator, and whose ports are the expected
    /// ports; the labels on the Deployment, its selector and its pod
    /// template.
    pub open spec fn expected_deployment(&self, pairs: Seq<EnvPairView>) -> DeploymentView {
        DeploymentView {
            metadata: self.child_meta(deployment_name(self.name@), Some(self.namespace@)),
            replicas: self.resource.replicas,
            selector: labels_of(self.name@, self.resource.labels),
            template_labels: labels_of(self.name@, self.resource.labels),
            containers: seq![
                ContainerView {
                    name: "sftpgo"@,
                    image: Some(self.image()),
                    env: configuration_env(pairs) + admin_env(admin_secret_name(self.name@)),
                    ports: expected_ports(self.resource.configuration),
                },
            ],
            node_selector: optional_text_map(self.resource.node_selector),
        }
    }

    /// Whether `deployment` is the Deployment of this server, given the
    /// pairs that its configuration flattens to.
    pub open spec fn is_expected_deployment(&self, deployment: Deployment, pairs: Seq<EnvPairView>) -> bool {
        deployment.wf() && deployment@ == self.expected_deployment(pairs)
    }

    /// The pairs that the configuration of this server flattens to,
    /// under the prefix `SFTPGO`.
    pub open spec fn configuration_pairs(&self) -> Seq<EnvPairView> {
        walk(self.resource.configuration.value_view(), Some("SFTPGO"@), Seq::empty()).pairs
    }

    /// The Deployment to apply for this server: one container whose
    /// environment is the flattened configuration under the prefix
    /// `SFTPGO`, followed by the three variables of the default
    /// administrator. It never fails: a configuration holds nothing
    /// that cannot be flattened.
    pub fn ensure_deployment(&self) -> (r: Result<Deployment, Error>)
        requires
            self.wf(),
        ensures
            r matches Ok(d) && self.is_expected_deployment(d, self.configuration_pairs()),
    {
        proof {
            self.resource.configuration.lemma_supported();
            lemma_supported_walk(
                self.resource.configuration.value_view(),
                Some("SFTPGO"@),
                Seq::empty(),
            );
        }
        let mut env_serializer = ViperEnvironmentSerializer::new_with_prefix("SFTPGO".to_owned());
        let ghost fresh = env_serializer;
        let value = self.resource.configuration.to_value();
        proof {
            assert(fresh.path() =~= Seq::empty());
            assert(pairs_of(fresh) =~= Seq::empty());
        }
        match env_serializer.serialize(&value) {
            Ok(()) => {},
            Err(e) => {
                return Err(Error::ViperSerializer { source: e });
            },
        }
        let ghost pairs = walk(
            self.resource.configuration.value_view(),
            Some("SFTPGO"@),
            Seq::empty(),
        ).pairs;
        proof {
            assert(pairs_of(env_serializer) =~= pairs);
        }
        let mut configuration_variables: Vec<EnvVar> = Vec::new();
        let mut i: usize = 0;
        while i < env_serializer.pairs.len()
            invariant
                i <= env_serializer.pairs.len(),
                pairs_of(env_serializer) == pairs,
                env_view(configuration_variables@) == configuration_env(pairs).take(i as int),
            decreases env_serializer.pairs.len() - i,
        {
            let p = &env_serializer.pairs[i];
            let variable = EnvVar {
                name: p.key.clone(),
                value: Some(p.value.clone()),
                value_from: None,
            };
            proof {
                assert(pairs_of(env_serializer)[i as int] == p@);
                assert(env_view(configuration_variables@.push(variable)) =~= env_view(
                    configuration_variables@,
                ).push(variable@));
                assert(configuration_env(pairs).take(i as int).push(
                    configuration_env(pairs)[i as int],
                ) =~= configuration_env(pairs).take(i + 1));
            }
            configuration_variables.push(variable);
            i += 1;
        }
        assert(configuration_env(pairs).take(i as int) =~= configuration_env(pairs));
        let ghost from_configuration = configuration_variables@;

        configuration_variables.push(
            EnvVar {
                name: "SFTPGO_DATA_PROVIDER__CREATE_DEFAULT_ADMIN".to_owned(),
                value: Some("true".to_owned()),
                value_from: None,
            },
        );
        configuration_variables.push(
            EnvVar {
                name: "SFTPGO_DEFAULT_ADMIN_USERNAME".to_owned(),
                value: None,
                value_from: Some(
                    SecretKeySelector {
                        name: Some(self.get_admin_user_secret_name()),
                        key: "username".to_owned(),
                    },
                ),
            },
        );
        configuration_variables.push(
            EnvVar {
                name: "SFTPGO_DEFAULT_ADMIN_PASSWORD".to_owned(),
                value: None,
                value_from: Some(
                    SecretKeySelector {
                        name: Some(self.get_admin_user_secret_name()),
                        key: "password".to_owned(),
                    },
                ),
            },
        );
        proof {
            assert(env_view(configuration_variables@) =~= configuration_env(pairs) + admin_env(
                admin_secret_name(self.name@),
            ));
        }

        let expected_ports = self.get_expected_ports();
        let labels = self.get_labels();
        let image = match &self.resource.image {
            Some(i) => i.clone(),
            None => DEFAULT_IMAGE.to_owned(),
        };
        let expected_container = Container {
            name: "sftpgo".to_owned(),
            image: Some(image),
            env: configuration_variables,
            ports: expected_ports,
        };
        let mut containers: Vec<Container> = Vec::new();
        containers.push(expected_container);
        let node_selector = match &self.resource.node_selector {
            Some(s) => Some(copy_text_map(s)),
            None => None,
        };
        let deployment_name = self.get_deployment_name();
        let expected_deployment = Deployment {
            metadata: self.render_meta(deployment_name, Some(self.namespace.clone())),
            replicas: self.resource.replicas,
            selector: copy_text_map(&labels),
            template_labels: labels,
            containers,
            node_selector,
        };
        proof {
            assert(expected_deployment@.containers =~= self.expected_deployment(pairs).containers);
        }
        Ok(expected_deployment)
    }

    /// The URL under which the management API of this server is reached
    /// inside the cluster.
    pub fn get_management_url(&self) -> (url: String)
        ensures
            url@ == management_url(self.name@, self.namespace@, self.resource.configuration),
    {
        let bindings = http_bindings_of(&self.resource.configuration);
        let http_binding = match bindings {
            Some(b) => if b.len() > 0 {
                Some(&b[0])
            } else {
                None
            },
            None => None,
        };
        let http_port: i64 = match http_binding {
            Some(b) => port_or_default(&b.port, 8080),
            None => 8080,
        };
        let secure = match http_binding {
            Some(b) => match b.enable_https {
                Some(enabled) => enabled,
                None => false,
            },
            None => false,
        };
        let http_protocol = if secure {
            "https"
        } else {
            "http"
        };
        let digits = i64_to_string(http_port);
        let mut url = concat(http_protocol, "://");
        url.append(self.name.as_str());
        url.append(".");
        url.append(self.namespace.as_str());
        url.append(".svc:");
        url.append(digits.as_str());
        url
    }

    /// A new credentials Secret of this server with the given
    /// administrator name and password.
    pub open spec fn admin_secret(&self, username: Seq<char>, password: Seq<char>) -> SecretView {
        SecretView {
            metadata: self.child_meta(admin_secret_name(self.name@), None),
            string_data: Map::<Seq<char>, Seq<char>>::empty().insert(
                "url"@,
                management_url(self.name@, self.namespace@, self.resource.configuration),
            ).insert("username"@, username).insert("password"@, password),
        }
    }

    /// Whether `secret` is a new credentials Secret of this server with
    /// the given administrator name and password.
    pub open spec fn is_admin_secret(&self, secret: Secret, username: Seq<char>, password: Seq<char>) -> bool {
        secret.wf() && secret@ == self.admin_secret(username, password)
    }

    /// A new credentials Secret of this server: the management URL, the
    /// administrator name `managed_admin_` followed by
    /// `username_postfix`, and the password.
    pub fn new_admin_secret(&self, username_postfix: &str, password: String) -> (secret: Secret)
        requires
            self.wf(),
        ensures
            self.is_admin_secret(secret, "managed_admin_"@ + username_postfix@, password@),
    {
        let mut secret_data: StringMap<String> = StringMap::new();
        proof {
            assert(text_map(secret_data) =~= Map::<Seq<char>, Seq<char>>::empty());
        }
        insert_text(&mut secret_data, SECRET_KEY_URL, self.get_management_url());
        insert_text(
            &mut secret_data,
            SECRET_KEY_USERNAME,
            concat("managed_admin_", username_postfix),
        );
        insert_text(&mut secret_data, SECRET_KEY_PASSWORD, password);
        Secret {
            metadata: self.render_meta(self.get_admin_user_secret_name(), None),
            string_data: secret_data,
        }
    }

    /// What is to be done about the credentials Secret, given the Secret
    /// that the cluster holds, if any.
    ///
    /// An existing Secret keeps every key but `url`, which is set to the
    /// management URL where it differs. Where there is none, a new one
    /// is created with fresh random credentials: 16 alphanumeric
    /// characters after `managed_admin_` for the name, 50 for the
    /// password.
    pub fn ensure_secret(&self, existing: Option<Secret>) -> (plan: SecretPlan)
        requires
            self.wf(),
            existing matches Some(found) ==> found.string_data.wf(),
        ensures
            match existing {
                Some(found) => plan@ == secret_plan(
                    text_map(found.string_data),
                    management_url(self.name@, self.namespace@, self.resource.configuration),
                ) && (plan matches SecretPlan::Replace(s) ==> s.metadata == found.metadata
                    && s.string_data.wf()),
                None => {
                    &&& plan matches SecretPlan::Create(s)
                    &&& exists|postfix: Seq<char>, password: Seq<char>|
                        {
                            &&& #[trigger] self.is_admin_secret(
                                s,
                                "managed_admin_"@ + postfix,
                                password,
                            )
                            &&& is_alphanumeric_text(postfix, 16)
                            &&& is_alphanumeric_text(password, 50)
                        }
                },
            },
    {
        let management_url = self.get_management_url();
        match existing {
            Some(found) => {
                let same = match get_text(&found.string_data, SECRET_KEY_URL) {
                    Some(current) => str_eq(current.as_str(), management_url.as_str()),
                    None => false,
                };
                if same {
                    SecretPlan::Unchanged
                } else {
                    let Secret { metadata, string_data } = found;
                    let mut string_data = string_data;
                    insert_text(&mut string_data, SECRET_KEY_URL, management_url);
                    SecretPlan::Replace(Secret { metadata, string_data })
                }
            },
            None => {
                let username_postfix = random_alphanumeric(16);
                let password = random_alphanumeric(50);
                let secret = self.new_admin_secret(username_postfix.as_str(), password);
                proof {
                    assert(self.is_admin_secret(
                        secret,
                        "managed_admin_"@ + username_postfix@,
                        password@,
                    ));
                }
                SecretPlan::Create(secret)
            },
        }
    }
}

/// What is to be done about the credentials Secret.
#[derive(Debug)]
pub enum SecretPlan {
    /// The Secret is as it should be.
    Unchanged,
    /// The Secret is to be replaced by this one.
    Replace(Secret),
    /// There is no Secret; this one is to be created.
    Create(Secret),
}

/// The model of a [`SecretPlan`]: the keys and texts of the Secret to
/// write, if any.
pub enum SecretPlanView {
    Unchanged,
    Replace(Map<Seq<char>, Seq<char>>),
    Create(Map<Seq<char>, Seq<char>>),
}

impl View for SecretPlan {
    type V = SecretPlanView;

    open spec fn view(&self) -> SecretPlanView {
        match self {
            SecretPlan::Unchanged => SecretPlanView::Unchanged,
            SecretPlan::Replace(s) => SecretPlanView::Replace(text_map(s.string_data)),
            SecretPlan::Create(s) => SecretPlanView::Create(text_map(s.string_data)),
        }
    }
}

/// The plan for a Secret that exists with the content `found`: nothing
/// where its `url` is the management URL, else the same content with
/// `url` set to it.
pub open spec fn secret_plan(found: Map<Seq<char>, Seq<char>>, url: Seq<char>) -> SecretPlanView {
    if found.contains_key("url"@) && found["url"@] == url {
        SecretPlanView::Unchanged
    } else {
        SecretPlanView::Replace(found.insert("url"@, url))
    }
}

/// The content of a Secret after a plan was carried out on the content
/// `found`.
pub open spec fn secret_after(found: Map<Seq<char>, Seq<char>>, plan: SecretPlanView) -> Map<
    Seq<char>,
    Seq<char>,
> {
    match plan {
        SecretPlanView::Unchanged => found,
        SecretPlanView::Replace(content) => content,
        SecretPlanView::Create(content) => content,
    }
}

/// The content of an existing Secret after one reconciliation for each
/// of the management URLs in `urls`, in order.
pub open spec fn secret_after_reconciles(found: Map<Seq<char>, Seq<char>>, urls: Seq<Seq<char>>) -> Map<
    Seq<char>,
    Seq<char>,
>
    decreases urls.len(),
{
    if urls.len() == 0 {
        found
    } else {
        let before = secret_after_reconciles(found, urls.drop_last());
        secret_after(before, secret_plan(before, urls.last()))
    }
}

/// Credentials are never rotated: whatever the management URLs of a
/// sequence of reconciliations of an existing credentials Secret, every
/// key of the Secret but `url` keeps its value, and so do `username`
/// and `password`.
pub proof fn lemma_credentials_stable(found: Map<Seq<char>, Seq<char>>, urls: Seq<Seq<char>>)
    ensures
        forall|key: Seq<char>|
            key != "url"@ ==> (#[trigger] secret_after_reconciles(found, urls).contains_key(key)
                <==> found.contains_key(key)),
        forall|key: Seq<char>|
            key != "url"@ && found.contains_key(key) ==> #[trigger] secret_after_reconciles(
                found,
                urls,
            )[key] == found[key],
        found.contains_key("username"@) ==> secret_after_reconciles(found, urls)["username"@]
            == found["username"@],
        found.contains_key("password"@) ==> secret_after_reconciles(found, urls)["password"@]
            == found["password"@],
    decreases urls.len(),
{
    reveal_strlit("url");
    reveal_strlit("username");
    reveal_strlit("password");
    if urls.len() > 0 {
        lemma_credentials_stable(found, urls.drop_last());
        let before = secret_after_reconciles(found, urls.drop_last());
        let after = secret_after_reconciles(found, urls);
        assert(after == before || after == before.insert("url"@, urls.last()));
        assert forall|key: Seq<char>| key != "url"@ implies (#[trigger] after.contains_key(key)
            <==> found.contains_key(key)) by {
            assert(before.contains_key(key) <==> found.contains_key(key));
        }
        assert forall|key: Seq<char>| key != "url"@ && found.contains_key(key) implies #[trigger] after[key]
            == found[key] by {
            assert(before.contains_key(key) <==> found.contains_key(key));
            assert(before[key] == found[key]);
        }
    }
    assert("url"@.len() == 3 && "username"@.len() == 8 && "password"@.len() == 8);
}

/// Whether a character is an ASCII letter or digit.
pub open spec fn is_alphanumeric(c: char) -> bool {
    ('0' <= c && c <= '9') || ('a' <= c && c <= 'z') || ('A' <= c && c <= 'Z')
}

/// Whether a text is made of `len` ASCII letters and digits.
pub open spec fn is_alphanumeric_text(s: Seq<char>, len: nat) -> bool {
    &&& s.len() == len
    &&& forall|i: int| 0 <= i < s.len() ==> is_alphanumeric(#[trigger] s[i])
}

/// Calls `Alphanumeric.sample_string` of the rand crate with the
/// generator of the current thread, `thread_rng`. The text differs
/// from call to call; the contract states what holds of every
/// outcome: it has `len` characters, each an ASCII letter or digit.
/// The call panics where the generator cannot be seeded from the
/// operating system.
#[verifier::external_body]
fn random_alphanumeric(len: usize) -> (s: String)
    ensures
        is_alphanumeric_text(s@, len as nat),
{
    let mut rng = rand::thread_rng();
    rand::distributions::DistString::sample_string(&rand::distributions::Alphanumeric, &mut rng, len)
}

/// Where the reconciliation of a server stands: what it waits for.
#[derive(Debug, Clone, Copy, PartialEq, Eq, Structural)]
pub enum ServerPhase {
    /// Deletion: the Deployment to be gone.
    DeletingDeployment,
    /// Deletion: the Service to be gone.
    DeletingService,
    /// Deletion: the credentials Secret to be gone.
    DeletingSecret,
    /// Deletion: the finalizer to be taken off.
    RemovingFinalizer,
    /// The finalizer to be put on.
    AddingFinalizer,
    /// The credentials Secret as the cluster holds it, if it does.
    ReadingSecret,
    /// The credentials Secret to be written.
    WritingSecret,
    /// The Service to be applied.
    ApplyingService,
    /// The Deployment to be applied.
    ApplyingDeployment,
    /// Nothing: the reconciliation is over.
    Finished,
}

/// What happened to the last command of a server reconciliation.
#[derive(Debug)]
pub enum ServerEvent {
    /// The command was carried out.
    Done,
    /// The Secret was read: the one that exists, if any.
    SecretRead(Option<Secret>),
    /// The command failed.
    Failed(Error),
}

/// What is to be done next for a server.
#[derive(Debug)]
pub enum ServerCommand {
    /// Delete the Deployment of this name.
    DeleteDeployment(String),
    /// Delete the Service of this name.
    DeleteService(String),
    /// Delete the Secret of this name.
    DeleteSecret(String),
    /// Take the controller's finalizer off the resource: patch its
    /// finalizers to this list.
    RemoveFinalizer(FinalizerPatch),
    /// Put the controller's finalizer on the resource: patch its
    /// finalizers to this list.
    AddFinalizer(FinalizerPatch),
    /// Read the Secret of this name.
    ReadSecret(String),
    /// Replace the Secret by this one.
    ReplaceSecret(Secret),
    /// Create this Secret.
    CreateSecret(Secret),
    /// Apply this Service, as the field manager, winning conflicts.
    ApplyService(Service),
    /// Apply this Deployment, as the field manager, winning conflicts.
    ApplyDeployment(Deployment),
    /// The reconciliation succeeded; hand this action to the scheduler.
    Finish(Action),
    /// The reconciliation failed with this error.
    Fail(Error),
}

/// The reconciliation of one server resource.
#[derive(Debug)]
pub struct ServerReconciliation {
    pub controller: DeploymentController,
    pub phase: ServerPhase,
    /// The finalizers that the resource carries.
    pub finalizers: Vec<String>,
}

/// The message of the failure for an event that the phase does not
/// wait for.
pub open spec fn unexpected_server_event_message() -> Seq<char> {
    "the event does not answer the command that was given"@
}

/// The phase in which the reconciliation of a server begins: a server
/// that is being deleted has its Deployment deleted first; any other
/// server gets the controller's finalizer where it does not carry it,
/// else its credentials Secret is read.
pub open spec fn first_phase(metadata: ObjectMeta) -> ServerPhase {
    if metadata.deletion_timestamp.is_some() {
        ServerPhase::DeletingDeployment
    } else if !has_finalizer(metadata.spec_finalizers()) {
        ServerPhase::AddingFinalizer
    } else {
        ServerPhase::ReadingSecret
    }
}

/// What an event says, as far as the next phase depends on it.
pub enum ServerAnswer {
    /// The command was carried out.
    Done,
    /// The Secret was read and is as it should be.
    SecretUnchanged,
    /// The Secret was read and has to be written.
    SecretToWrite,
    /// The command failed.
    Failed,
}

/// The phase that follows a phase on an answer, for a resource that
/// carries the controller's finalizer or not. Deletion goes from the
/// Deployment to the Service, the Secret and, where the resource
/// carries it, the finalizer. Upkeep goes from the finalizer to the
/// Secret, which is only written where it has to be, then to the
/// Service and the Deployment. A failure, and an answer that the phase
/// does not wait for, end the reconciliation.
pub open spec fn server_transition(phase: ServerPhase, answer: ServerAnswer, carries: bool) -> ServerPhase {
    match (phase, answer) {
        (ServerPhase::DeletingDeployment, ServerAnswer::Done) => ServerPhase::DeletingService,
        (ServerPhase::DeletingService, ServerAnswer::Done) => ServerPhase::DeletingSecret,
        (ServerPhase::DeletingSecret, ServerAnswer::Done) => if carries {
            ServerPhase::RemovingFinalizer
        } else {
            ServerPhase::Finished
        },
        (ServerPhase::RemovingFinalizer, ServerAnswer::Done) => ServerPhase::Finished,
        (ServerPhase::AddingFinalizer, ServerAnswer::Done) => ServerPhase::ReadingSecret,
        (ServerPhase::ReadingSecret, ServerAnswer::SecretUnchanged) => ServerPhase::ApplyingService,
        (ServerPhase::ReadingSecret, ServerAnswer::SecretToWrite) => ServerPhase::WritingSecret,
        (ServerPhase::WritingSecret, ServerAnswer::Done) => ServerPhase::ApplyingService,
        (ServerPhase::ApplyingService, ServerAnswer::Done) => ServerPhase::ApplyingDeployment,
        _ => ServerPhase::Finished,
    }
}

/// The finalizers that the reconciliation knows on the resource after
/// an answer: the controller's is on the list once it was put on, and
/// off it once it was taken off; every other finalizer stays.
pub open spec fn finalizers_after(phase: ServerPhase, answer: ServerAnswer, list: Seq<Seq<char>>) -> Seq<
    Seq<char>,
> {
    match (phase, answer) {
        (ServerPhase::AddingFinalizer, ServerAnswer::Done) => with_finalizer(list),
        (ServerPhase::RemovingFinalizer, ServerAnswer::Done) => without_finalizer(list),
        _ => list,
    }
}

impl ServerReconciliation {
    /// The finalizers that the resource carries.
    pub open spec fn carried(&self) -> Seq<Seq<char>> {
        names(self.finalizers@)
    }

    /// What an event says to this reconciliation.
    pub open spec fn answer_of(&self, event: ServerEvent) -> ServerAnswer {
        match event {
            ServerEvent::Done => ServerAnswer::Done,
            ServerEvent::Failed(_) => ServerAnswer::Failed,
            ServerEvent::SecretRead(None) => ServerAnswer::SecretToWrite,
            ServerEvent::SecretRead(Some(found)) => if secret_plan(
                text_map(found.string_data),
                management_url(
                    self.controller.name@,
                    self.controller.namespace@,
                    self.controller.resource.configuration,
                ),
            ) is Unchanged {
                ServerAnswer::SecretUnchanged
            } else {
                ServerAnswer::SecretToWrite
            },
        }
    }

    /// Whether `secret` is a new credentials Secret of this server
    /// with fresh credentials: 16 letters and digits after
    /// `managed_admin_` for the name, 50 for the password.
    pub open spec fn is_fresh_admin_secret(&self, secret: Secret) -> bool {
        exists|postfix: Seq<char>, password: Seq<char>|
            {
                &&& #[trigger] self.controller.is_admin_secret(
                    secret,
                    "managed_admin_"@ + postfix,
                    password,
                )
                &&& is_alphanumeric_text(postfix, 16)
                &&& is_alphanumeric_text(password, 50)
            }
    }

    /// Whether `command` is the command with which `phase` is entered.
    pub open spec fn enters(&self, phase: ServerPhase, command: ServerCommand) -> bool {
        match phase {
            ServerPhase::DeletingDeployment => command matches ServerCommand::DeleteDeployment(n)
                && n@ == deployment_name(self.controller.name@),
            ServerPhase::DeletingService => command matches ServerCommand::DeleteService(n) && n@
                == self.controller.name@,
            ServerPhase::DeletingSecret => command matches ServerCommand::DeleteSecret(n) && n@
                == admin_secret_name(self.controller.name@),
            ServerPhase::RemovingFinalizer => command matches ServerCommand::RemoveFinalizer(p)
                && p@ == without_finalizer(self.carried()),
            ServerPhase::AddingFinalizer => command matches ServerCommand::AddFinalizer(p) && p@
                == with_finalizer(self.carried()),
            ServerPhase::ReadingSecret => command matches ServerCommand::ReadSecret(n) && n@
                == admin_secret_name(self.controller.name@),
            ServerPhase::WritingSecret => command is ReplaceSecret || command is CreateSecret,
            ServerPhase::ApplyingService => command matches ServerCommand::ApplyService(s)
                && self.controller.is_expected_service(s),
            ServerPhase::ApplyingDeployment => command matches ServerCommand::ApplyDeployment(d)
                && self.controller.is_expected_deployment(
                d,
                self.controller.configuration_pairs(),
            ),
            ServerPhase::Finished => command is Finish || command is Fail,
        }
    }

    /// Whether `command` is the command that this reconciliation gives
    /// on `event` when it goes on to `phase`.
    ///
    /// At the end, a failure hands on the error of its event; the
    /// deletion that is complete, with the finalizer taken off or
    /// never there, asks to wait for the next change, the
    /// upkeep that is complete to be run again in an hour; an event
    /// that the phase does not wait for is an error of its own. A
    /// Secret that exists is replaced by itself with `url` set to the
    /// management URL; where there is none, one is created with fresh
    /// credentials. Every other phase is entered with its own command.
    pub open spec fn issues(&self, event: ServerEvent, phase: ServerPhase, command: ServerCommand) -> bool {
        match phase {
            ServerPhase::Finished => match (self.phase, event) {
                (_, ServerEvent::Failed(e)) => command == ServerCommand::Fail(e),
                (ServerPhase::RemovingFinalizer, ServerEvent::Done) => command
                    == ServerCommand::Finish(Action::AwaitChange),
                (ServerPhase::DeletingSecret, ServerEvent::Done) => command
                    == ServerCommand::Finish(Action::AwaitChange),
                (ServerPhase::ApplyingDeployment, ServerEvent::Done) => command
                    == ServerCommand::Finish(Action::Requeue(3600)),
                _ => command matches ServerCommand::Fail(Error::Kube { source }) && source@
                    == unexpected_server_event_message(),
            },
            ServerPhase::WritingSecret => match event {
                ServerEvent::SecretRead(Some(found)) => {
                    &&& command matches ServerCommand::ReplaceSecret(s)
                    &&& s.metadata == found.metadata
                    &&& s.string_data.wf()
                    &&& text_map(s.string_data) == text_map(found.string_data).insert(
                        "url"@,
                        management_url(
                            self.controller.name@,
                            self.controller.namespace@,
                            self.controller.resource.configuration,
                        ),
                    )
                },
                _ => command matches ServerCommand::CreateSecret(s) && self.is_fresh_admin_secret(
                    s,
                ),
            },
            other => self.enters(other, command),
        }
    }

    fn enter(&mut self, phase: ServerPhase) -> (command: ServerCommand)
        requires
            old(self).controller.wf(),
            phase != ServerPhase::WritingSecret,
            phase != ServerPhase::Finished,
        ensures
            final(self).controller == old(self).controller,
            final(self).finalizers == old(self).finalizers,
            final(self).phase == phase,
            final(self).enters(phase, command),
    {
        self.phase = phase;
        match phase {
            ServerPhase::DeletingDeployment => ServerCommand::DeleteDeployment(
                self.controller.get_deployment_name(),
            ),
            ServerPhase::DeletingService => ServerCommand::DeleteService(
                self.controller.name.clone(),
            ),
            ServerPhase::DeletingSecret => ServerCommand::DeleteSecret(
                self.controller.get_admin_user_secret_name(),
            ),
            ServerPhase::RemovingFinalizer => ServerCommand::RemoveFinalizer(
                take_off(&self.finalizers),
            ),
            ServerPhase::AddingFinalizer => ServerCommand::AddFinalizer(put_on(&self.finalizers)),
            ServerPhase::ReadingSecret => ServerCommand::ReadSecret(
                self.controller.get_admin_user_secret_name(),
            ),
            ServerPhase::ApplyingService => ServerCommand::ApplyService(
                self.controller.ensure_service(),
            ),
            _ => match self.controller.ensure_deployment() {
                Ok(deployment) => ServerCommand::ApplyDeployment(deployment),
                Err(e) => ServerCommand::Fail(e),
            },
        }
    }

    fn finish(&mut self, action: Action) -> (command: ServerCommand)
        ensures
            final(self).controller == old(self).controller,
            final(self).finalizers == old(self).finalizers,
            final(self).phase == ServerPhase::Finished,
            command == ServerCommand::Finish(action),
    {
        self.phase = ServerPhase::Finished;
        ServerCommand::Finish(action)
    }

    fn unexpected(&mut self) -> (command: ServerCommand)
        ensures
            final(self).controller == old(self).controller,
            final(self).finalizers == old(self).finalizers,
            final(self).phase == ServerPhase::Finished,
            command matches ServerCommand::Fail(Error::Kube { source }) && source@
                == unexpected_server_event_message(),
    {
        self.phase = ServerPhase::Finished;
        ServerCommand::Fail(
            Error::Kube {
                source: "the event does not answer the command that was given".to_owned(),
            },
        )
    }

    /// Takes the reconciliation of a server one step on: given what
    /// happened to the last command, the next command.
    ///
    /// A failure ends the reconciliation with the error of the event,
    /// an event that the phase does not wait for with an error of its
    /// own. On success the deletion of a server goes from the
    /// Deployment to the Service, the Secret and the controller's
    /// finalizer, which is taken off where the resource carries it,
    /// and ends waiting for the next change. The upkeep of a server
    /// goes from the finalizer, which is put on beside the others
    /// where the resource does not carry it, to the Secret, which is
    /// written only where
    /// [`DeploymentController::ensure_secret`] says so, then to the
    /// Service and the Deployment, and ends asking to be run again in
    /// an hour.
    pub fn step(&mut self, event: ServerEvent) -> (command: ServerCommand)
        requires
            old(self).controller.wf(),
            event matches ServerEvent::SecretRead(Some(found)) ==> found.string_data.wf(),
        ensures
            final(self).controller == old(self).controller,
            final(self).phase == server_transition(
                old(self).phase,
                old(self).answer_of(event),
                has_finalizer(old(self).carried()),
            ),
            final(self).carried() == finalizers_after(
                old(self).phase,
                old(self).answer_of(event),
                old(self).carried(),
            ),
            old(self).issues(event, final(self).phase, command),
    {
        match event {
            ServerEvent::Failed(e) => {
                self.phase = ServerPhase::Finished;
                ServerCommand::Fail(e)
            },
            ServerEvent::Done => match self.phase {
                ServerPhase::DeletingDeployment => self.enter(ServerPhase::DeletingService),
                ServerPhase::DeletingService => self.enter(ServerPhase::DeletingSecret),
                ServerPhase::DeletingSecret => if carries_finalizer(&self.finalizers) {
                    self.enter(ServerPhase::RemovingFinalizer)
                } else {
                    self.finish(Action::AwaitChange)
                },
                ServerPhase::RemovingFinalizer => {
                    self.finalizers = take_off(&self.finalizers).finalizers;
                    self.finish(Action::AwaitChange)
                },
                ServerPhase::AddingFinalizer => {
                    self.finalizers = put_on(&self.finalizers).finalizers;
                    self.enter(ServerPhase::ReadingSecret)
                },
                ServerPhase::WritingSecret => self.enter(ServerPhase::ApplyingService),
                ServerPhase::ApplyingService => self.enter(ServerPhase::ApplyingDeployment),
                ServerPhase::ApplyingDeployment => self.finish(
                    Action::Requeue(DRIFT_REQUEUE_SECONDS),
                ),
                _ => self.unexpected(),
            },
            ServerEvent::SecretRead(existing) => {
                if self.phase != ServerPhase::ReadingSecret {
                    return self.unexpected();
                }
                match self.controller.ensure_secret(existing) {
                    SecretPlan::Unchanged => self.enter(ServerPhase::ApplyingService),
                    SecretPlan::Replace(secret) => {
                        self.phase = ServerPhase::WritingSecret;
                        ServerCommand::ReplaceSecret(secret)
                    },
                    SecretPlan::Create(secret) => {
                        self.phase = ServerPhase::WritingSecret;
                        ServerCommand::CreateSecret(secret)
                    },
                }
            },
        }
    }
}

/// Begins the reconciliation of a server resource. A resource without
/// namespace is refused; else the first command is that of
/// [`first_phase`].
pub fn reconcile_sftpgo_server(resource: SftpgoServer) -> (r: Result<
    (ServerReconciliation, ServerCommand),
    Error,
>)
    requires
        resource.metadata.name is Some,
        resource.metadata.uid is Some,
        resource.spec.labels matches Some(l) ==> l.wf(),
        resource.spec.node_selector matches Some(s) ==> s.wf(),
    ensures
        match resource.metadata.namespace {
            None => r matches Err(Error::UserInput(m)) && m@ == server_namespace_message(),
            Some(ns) => {
                &&& r matches Ok((reconciliation, command))
                &&& reconciliation.controller.wf()
                &&& reconciliation.controller.name@ == resource.metadata.spec_name_any()
                &&& reconciliation.controller.namespace@ == ns@
                &&& reconciliation.controller.resource == resource.spec
                &&& reconciliation.controller.owner_reference@ == server_owner_reference(
                    resource.metadata.name->0@,
                    resource.metadata.uid->0@,
                )
                &&& reconciliation.carried() == resource.metadata.spec_finalizers()
                &&& reconciliation.phase == first_phase(resource.metadata)
                &&& reconciliation.enters(reconciliation.phase, command)
            },
        },
{
    let deleting = resource.metadata.is_being_deleted();
    let finalizers = match &resource.metadata.finalizers {
        Some(list) => copy_names(list),
        None => {
            let empty: Vec<String> = Vec::new();
            proof {
                assert(names(empty@) =~= Seq::<Seq<char>>::empty());
            }
            empty
        },
    };
    let carries = carries_finalizer(&finalizers);
    let controller = match DeploymentController::new(resource) {
        Ok(c) => c,
        Err(e) => {
            return Err(e);
        },
    };
    let mut reconciliation = ServerReconciliation {
        controller,
        phase: ServerPhase::Finished,
        finalizers,
    };
    let command = if deleting {
        reconciliation.enter(ServerPhase::DeletingDeployment)
    } else if !carries {
        reconciliation.enter(ServerPhase::AddingFinalizer)
    } else {
        reconciliation.enter(ServerPhase::ReadingSecret)
    };
    Ok((reconciliation, command))
}

/// The message for a port that Kubernetes cannot hold.
pub open spec fn port_range_message(number: int) -> Seq<char> {
    "Port "@ + decimal_int(number) + " is out of range"@
}

/// A port number as Kubernetes holds it. A number that does not fit is
/// refused.
pub fn checked_port(number: i64) -> (r: Result<i32, Error>)
    ensures
        match r {
            Ok(port) => port == number,
            Err(e) => (number < i32::MIN || number > i32::MAX) && (e matches Error::UserInput(m)
                && m@ == port_range_message(number as int)),
        },
{
    if number < -2147483648 || number > 2147483647 {
        let mut message = concat("Port ", i64_to_string(number).as_str());
        message.append(" is out of range");
        Err(Error::UserInput(message))
    } else {
        Ok(number as i32)
    }
}

/// What the answer to the deletion of a rendered object means: an
/// object that is gone, or was never there, is deleted; any other
/// failure is a failure, with the message of the Kubernetes API.
pub fn deleted(code: Option<u16>, message: String) -> (event: ServerEvent)
    ensures
        match code {
            None => event is Done,
            Some(status) => if status == 404 {
                event is Done
            } else {
                event matches ServerEvent::Failed(Error::Kube { source }) && source == message
            },
        },
{
    match code {
        None => ServerEvent::Done,
        Some(status) => if status == 404 {
            ServerEvent::Done
        } else {
            ServerEvent::Failed(Error::Kube { source: message })
        },
    }
}

/// Applying is idempotent: what is rendered for a server is a function
/// of the server resource alone, so two reconciliations of an
/// unchanged resource apply the same Service and the same Deployment.
pub proof fn lemma_rendering_is_a_function(
    controller: DeploymentController,
    first_service: Service,
    second_service: Service,
    first_deployment: Deployment,
    second_deployment: Deployment,
)
    requires
        controller.is_expected_service(first_service),
        controller.is_expected_service(second_service),
        controller.is_expected_deployment(first_deployment, controller.configuration_pairs()),
        controller.is_expected_deployment(second_deployment, controller.configuration_pairs()),
    ensures
        first_service@ == second_service@,
        first_deployment@ == second_deployment@,
{
}

} // verus!

//! The requests of the management API for users, folders and
//! administrators, and what their answers mean.

use crate::client::error_response::{
    expected_payload, handle_response, is_handled, spec_expected_payload, Payload, PayloadKind,
    SftpgoError,
};
use crate::client::client::{
    is_endpoint_url, url_join, AuthorizedSftpgoClient, SftpgoClientBase,
};
use crate::text::concat;
use vstd::prelude::*;
use vstd::string::StringExecFns;

verus! {

/// A request body that names its entity.
pub trait Named {
    /// The name of the entity.
    spec fn spec_name(&self) -> Seq<char>;

    /// The name of the entity.
    fn name(&self) -> (r: &str)
        ensures
            r@ == self.spec_name(),
    ;
}

/// An entity as the server holds it.
pub trait Existing {
    /// The name of the entity.
    spec fn spec_name(&self) -> Seq<char>;

    /// The identifier that the server gave the entity.
    spec fn spec_id(&self) -> i32;

    /// The name of the entity.
    fn name(&self) -> (r: &str)
        ensures
            r@ == self.spec_name(),
    ;

    /// The identifier that the server gave the entity.
    fn id(&self) -> (r: i32)
        ensures
            r == self.spec_id(),
    ;
}

/// A request body whose entity the server answers with `TResponse`.
pub trait Creates<TResponse>: Named {

}

/// An entity that the server creates from `TRequest`.
pub trait CreatedFrom<TRequest>: Existing {

}

/// The three kinds of entity.
#[derive(Debug, Clone, Copy, PartialEq, Eq, Structural)]
pub enum EntityKind {
    User,
    Folder,
    Admin,
}

impl EntityKind {
    /// The path segment of the kind.
    pub open spec fn segment(&self) -> Seq<char> {
        match self {
            EntityKind::User => "users"@,
            EntityKind::Folder => "folders"@,
            EntityKind::Admin => "admins"@,
        }
    }

    /// The path segment of the kind.
    pub fn path_segment(&self) -> (r: &'static str)
        ensures
            r@ == self.segment(),
    {
        match self {
            EntityKind::User => "users",
            EntityKind::Folder => "folders",
            EntityKind::Admin => "admins",
        }
    }
}

/// The endpoint of a kind, or of one entity of the kind.
pub open spec fn endpoint_of(kind: EntityKind, name: Option<Seq<char>>) -> Seq<char> {
    match name {
        Some(n) => "/api/v2/"@ + kind.segment() + "/"@ + n,
        None => "/api/v2/"@ + kind.segment(),
    }
}

/// The endpoint of a kind (`/api/v2/<segment>`), or of one entity of the
/// kind (`/api/v2/<segment>/<name>`).
pub fn endpoint(kind: EntityKind, name: Option<&str>) -> (r: String)
    ensures
        r@ == endpoint_of(
            kind,
            match name {
                Some(n) => Some(n@),
                None => None,
            },
        ),
{
    let mut r = concat("/api/v2/", kind.path_segment());
    match name {
        Some(n) => {
            r.append("/");
            r.append(n);
        },
        None => {},
    }
    r
}

/// The method of a request.
#[derive(Debug, Clone, Copy, PartialEq, Eq, Structural)]
pub enum Method {
    Get,
    Post,
    Put,
    Delete,
}

/// The four operations on an entity.
#[derive(Debug, Clone, Copy, PartialEq, Eq, Structural)]
pub enum Operation {
    Create,
    Update,
    Delete,
    Get,
}

impl Operation {
    /// The method of the operation.
    pub open spec fn spec_method(&self) -> Method {
        match self {
            Operation::Create => Method::Post,
            Operation::Update => Method::Put,
            Operation::Delete => Method::Delete,
            Operation::Get => Method::Get,
        }
    }

    /// The method of the operation.
    pub fn method(&self) -> (m: Method)
        ensures
            m == self.spec_method(),
    {
        match self {
            Operation::Create => Method::Post,
            Operation::Update => Method::Put,
            Operation::Delete => Method::Delete,
            Operation::Get => Method::Get,
        }
    }

    /// Whether the request carries the entity as its body.
    pub open spec fn spec_sends_body(&self) -> bool {
        *self == Operation::Create || *self == Operation::Update
    }

    /// Whether the request carries the entity as its body.
    pub fn sends_body(&self) -> (b: bool)
        ensures
            b == self.spec_sends_body(),
    {
        match self {
            Operation::Create => true,
            Operation::Update => true,
            Operation::Delete => false,
            Operation::Get => false,
        }
    }

    /// The endpoint of the operation on the entity `name`: that of the
    /// kind for a creation, that of the entity for the others.
    pub open spec fn spec_endpoint(&self, kind: EntityKind, name: Seq<char>) -> Seq<char> {
        match self {
            Operation::Create => endpoint_of(kind, None),
            _ => endpoint_of(kind, Some(name)),
        }
    }

    /// The endpoint of the operation on the entity `name`.
    pub fn endpoint(&self, kind: EntityKind, name: &str) -> (r: String)
        ensures
            r@ == self.spec_endpoint(kind, name@),
    {
        match self {
            Operation::Create => endpoint(kind, None),
            _ => endpoint(kind, Some(name)),
        }
    }
}

/// How the body of the answer to an operation is to be decoded: not at
/// all where the status alone decides (a 404 to a lookup, a 404 or 200
/// to a deletion), else as [`expected_payload`] says.
pub open spec fn spec_expected_payload_for(operation: Operation, status: u16) -> PayloadKind {
    if operation == Operation::Get && status == 404 {
        PayloadKind::Unread
    } else if operation == Operation::Delete && (status == 404 || status == 200) {
        PayloadKind::Unread
    } else {
        spec_expected_payload(status)
    }
}

/// How the body of the answer to an operation is to be decoded.
pub fn expected_payload_for(operation: Operation, status: u16) -> (kind: PayloadKind)
    ensures
        kind == spec_expected_payload_for(operation, status),
{
    match operation {
        Operation::Get => if status == 404 {
            PayloadKind::Unread
        } else {
            expected_payload(status)
        },
        Operation::Delete => if status == 404 || status == 200 {
            PayloadKind::Unread
        } else {
            expected_payload(status)
        },
        _ => expected_payload(status),
    }
}

/// What the answer to a deletion means: an entity that is gone, or was
/// never there, is deleted; any other answer is handled as every
/// answer is.
pub fn delete_outcome(status: u16, payload: Payload<()>) -> (r: Result<(), SftpgoError>)
    ensures
        if status == 404 || status == 200 {
            r is Ok
        } else {
            is_handled(status, payload, r)
        },
{
    if status == 404 || status == 200 {
        return Ok(());
    }
    handle_response(status, payload)
}

/// What the answer to a lookup means: a 404 is an absent entity; any
/// other answer is handled as every answer is, and its entity is
/// present.
pub fn get_outcome<T>(status: u16, payload: Payload<T>) -> (r: Result<Option<T>, SftpgoError>)
    ensures
        if status == 404 {
            r == Ok::<Option<T>, SftpgoError>(None)
        } else {
            match r {
                Ok(Some(t)) => is_handled(status, payload, Ok::<T, SftpgoError>(t)),
                Ok(None) => false,
                Err(e) => is_handled(status, payload, Err::<T, SftpgoError>(e)),
            }
        },
{
    if status == 404 {
        return Ok(None);
    }
    match handle_response(status, payload) {
        Ok(t) => Ok(Some(t)),
        Err(e) => Err(e),
    }
}

/// A request to the management API, ready to be sent.
#[derive(Debug, Clone, PartialEq, Eq)]
pub struct Request {
    pub method: Method,
    pub url: String,
    /// The value of the `Authorization` header.
    pub authorization: String,
    /// Whether the entity is sent as the JSON body of the request.
    pub sends_body: bool,
}

/// The model of a [`Request`].
pub struct RequestView {
    pub method: Method,
    pub url: Seq<char>,
    pub authorization: Seq<char>,
    pub sends_body: bool,
}

impl View for Request {
    type V = RequestView;

    open spec fn view(&self) -> RequestView {
        RequestView {
            method: self.method,
            url: self.url@,
            authorization: self.authorization@,
            sends_body: self.sends_body,
        }
    }
}

/// Whether `r` is the request for an operation, given what joining its
/// endpoint to the base URL gave: the request with the method of the
/// operation, the joined URL and the header value, or the failure to
/// build a URL.
pub open spec fn is_request(
    operation: Operation,
    joined: Result<Seq<char>, Seq<char>>,
    authorization: Seq<char>,
    r: Result<Request, SftpgoError>,
) -> bool {
    match joined {
        Ok(url) => r matches Ok(request) && request@ == (RequestView {
            method: operation.spec_method(),
            url,
            authorization,
            sends_body: operation.spec_sends_body(),
        }),
        Err(m) => r matches Err(SftpgoError::UrlBuildingFailed(x)) && x@ == m,
    }
}

/// The request for an operation, given the URL of its endpoint, or the
/// failure to build one, and the header value that authorizes it.
pub fn request_to(
    operation: Operation,
    url: Result<String, SftpgoError>,
    auth_header_value: String,
) -> (r: Result<Request, SftpgoError>)
    ensures
        match url {
            Ok(u) => r matches Ok(request) && request@ == (RequestView {
                method: operation.spec_method(),
                url: u@,
                authorization: auth_header_value@,
                sends_body: operation.spec_sends_body(),
            }),
            Err(e) => r == Err::<Request, SftpgoError>(e),
        },
{
    match url {
        Ok(url) => Ok(
            Request {
                method: operation.method(),
                url,
                authorization: auth_header_value,
                sends_body: operation.sends_body(),
            },
        ),
        Err(e) => Err(e),
    }
}

impl<TAuthContext> AuthorizedSftpgoClient<TAuthContext> {
    /// The URL of a kind of entity, or of one entity of the kind.
    pub fn get_url(&self, kind: EntityKind, path: Option<&str>) -> (r: Result<String, SftpgoError>)
        ensures
            is_endpoint_url(
                url_join(
                    self.client.base_url@,
                    endpoint_of(
                        kind,
                        match path {
                            Some(p) => Some(p@),
                            None => None,
                        },
                    ),
                ),
                r,
            ),
    {
        let endpoint = endpoint(kind, path);
        self.url_for(endpoint.as_str())
    }

    /// The request for an operation on the entity `name`, with the
    /// header value that authorizes it.
    pub fn request(
        &self,
        kind: EntityKind,
        operation: Operation,
        name: &str,
        auth_header_value: String,
    ) -> (r: Result<Request, SftpgoError>)
        ensures
            is_request(
                operation,
                url_join(self.client.base_url@, operation.spec_endpoint(kind, name@)),
                auth_header_value@,
                r,
            ),
    {
        let endpoint = operation.endpoint(kind, name);
        request_to(operation, self.url_for(endpoint.as_str()), auth_header_value)
    }

    /// The request that creates the entity `item`: a POST of the
    /// entity to the endpoint of its kind.
    pub fn create<TRequest: Named>(&self, kind: EntityKind, item: &TRequest, auth_header_value: String) -> (r:
        Result<Request, SftpgoError>)
        ensures
            is_request(
                Operation::Create,
                url_join(self.client.base_url@, endpoint_of(kind, None)),
                auth_header_value@,
                r,
            ),
    {
        self.request(kind, Operation::Create, item.name(), auth_header_value)
    }

    /// The request that updates the entity `item`: a PUT of the entity
    /// to its own endpoint.
    pub fn update<TRequest: Named>(&self, kind: EntityKind, item: &TRequest, auth_header_value: String) -> (r:
        Result<Request, SftpgoError>)
        ensures
            is_request(
                Operation::Update,
                url_join(self.client.base_url@, endpoint_of(kind, Some(item.spec_name()))),
                auth_header_value@,
                r,
            ),
    {
        self.request(kind, Operation::Update, item.name(), auth_header_value)
    }

    /// The request that deletes the entity `name`: a DELETE of its
    /// endpoint.
    pub fn delete(&self, kind: EntityKind, name: &str, auth_header_value: String) -> (r: Result<
        Request,
        SftpgoError,
    >)
        ensures
            is_request(
                Operation::Delete,
                url_join(self.client.base_url@, endpoint_of(kind, Some(name@))),
                auth_header_value@,
                r,
            ),
    {
        self.request(kind, Operation::Delete, name, auth_header_value)
    }

    /// The request that looks the entity `name` up: a GET of its
    /// endpoint.
    pub fn get(&self, kind: EntityKind, name: &str, auth_header_value: String) -> (r: Result<
        Request,
        SftpgoError,
    >)
        ensures
            is_request(
                Operation::Get,
                url_join(self.client.base_url@, endpoint_of(kind, Some(name@))),
                auth_header_value@,
                r,
            ),
    {
        self.request(kind, Operation::Get, name, auth_header_value)
    }
}

} // verus!

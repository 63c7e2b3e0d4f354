//! How a resource names the server that it belongs to.

use vstd::prelude::*;

verus! {

/// A Secret that holds the URL and the credentials of a server.
#[derive(Debug, Clone, PartialEq)]
pub struct ConnectionSecret {
    pub name: String,
    /// The namespace of the Secret; that of the referring resource
    /// where absent.
    pub namespace: Option<String>,
}

/// Values that replace what the Secret holds.
#[derive(Debug, Clone, PartialEq)]
pub struct ConnectionOverride {
    pub url: Option<String>,
    pub username: Option<String>,
    pub password: Option<String>,
}

/// The server that a resource belongs to: either a server resource by
/// name, or a Secret with the connection values.
#[derive(Debug, Clone, PartialEq)]
pub struct ServerReference {
    pub name: Option<String>,
    pub namespace: Option<String>,
    pub connection_secret: Option<ConnectionSecret>,
    pub override_values: Option<ConnectionOverride>,
}

} // verus!

//! Administrators as the management API takes and gives them.

use crate::client::rest_client::{CreatedFrom, Creates, Existing, Named};
use crate::client::users::{texts, UserStatus};
use crate::kubernetes::optional_text;
use vstd::prelude::*;

verus! {

/// An administrator as it is written to the server.
#[derive(Debug, Clone, PartialEq, Eq)]
pub struct AdminRequest {
    pub username: String,
    pub description: Option<String>,
    pub password: String,
    pub email: Option<String>,
    pub permissions: Vec<String>,
    pub status: UserStatus,
    pub role: Option<String>,
}

/// The model of an [`AdminRequest`].
pub struct AdminRequestView {
    pub username: Seq<char>,
    pub description: Option<Seq<char>>,
    pub password: Seq<char>,
    pub email: Option<Seq<char>>,
    pub permissions: Seq<Seq<char>>,
    pub status: UserStatus,
    pub role: Option<Seq<char>>,
}

impl View for AdminRequest {
    type V = AdminRequestView;

    open spec fn view(&self) -> AdminRequestView {
        AdminRequestView {
            username: self.username@,
            description: optional_text(self.description),
            password: self.password@,
            email: optional_text(self.email),
            permissions: texts(self.permissions@),
            status: self.status,
            role: optional_text(self.role),
        }
    }
}

impl Named for AdminRequest {
    open spec fn spec_name(&self) -> Seq<char> {
        self.username@
    }

    fn name(&self) -> (r: &str) {
        self.username.as_str()
    }
}

impl Creates<AdminResponse> for AdminRequest {

}

/// An administrator as the server holds it.
#[derive(Debug, Clone, PartialEq, Eq)]
pub struct AdminResponse {
    pub id: i32,
    pub username: String,
    pub status: UserStatus,
    pub description: Option<String>,
    pub email: Option<String>,
    pub permissions: Vec<String>,
    pub role: Option<String>,
}

impl Existing for AdminResponse {
    open spec fn spec_name(&self) -> Seq<char> {
        self.username@
    }

    open spec fn spec_id(&self) -> i32 {
        self.id
    }

    fn name(&self) -> (r: &str) {
        self.username.as_str()
    }

    fn id(&self) -> (r: i32) {
        self.id
    }
}

impl CreatedFrom<AdminRequest> for AdminResponse {

}

} // verus!

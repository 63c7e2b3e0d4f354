//! The administrator resource as the reconciler sees it.

use crate::client::admins::{AdminRequest, AdminRequestView};
use crate::client::rest_client::EntityKind;
use crate::client::users::{texts, UserStatus};
use crate::crds::admin::{AdminPermission, SftpgoAdmin, SftpgoAdminResourceStatus};
use crate::crds::sftpgo_server_reference::ServerReference;
use crate::kubernetes::{clone_optional_text, optional_text, ObjectMeta};
use crate::operator::reconciler::{Error, SftpgoResource};
use crate::operator::user_reconciler::{map_status, MapEnabled};
use vstd::prelude::*;

verus! {

/// The tokens of a list of administrator permissions.
pub open spec fn admin_tokens(permissions: Seq<AdminPermission>) -> Seq<Seq<char>> {
    permissions.map_values(|p: AdminPermission| p.token())
}

/// The administrator that the management API is asked to hold for a
/// resource.
pub open spec fn admin_request_model(admin: SftpgoAdmin) -> AdminRequestView {
    AdminRequestView {
        username: admin.spec.configuration.username@,
        description: optional_text(admin.spec.configuration.description),
        password: admin.spec.configuration.password@,
        email: optional_text(admin.spec.configuration.email),
        permissions: admin_tokens(admin.spec.configuration.permissions@),
        status: map_status(admin.spec.configuration.enabled),
        role: optional_text(admin.spec.configuration.role),
    }
}

impl SftpgoResource for SftpgoAdmin {
    type Status = SftpgoAdminResourceStatus;

    open spec fn spec_name(&self) -> Seq<char> {
        self.spec.configuration.username@
    }

    open spec fn spec_metadata(&self) -> ObjectMeta {
        self.metadata
    }

    open spec fn spec_status(&self) -> Option<SftpgoAdminResourceStatus> {
        self.status
    }

    open spec fn spec_server_reference(&self) -> ServerReference {
        self.spec.server_reference
    }

    open spec fn spec_kind() -> EntityKind {
        EntityKind::Admin
    }

    fn kind() -> (k: EntityKind) {
        EntityKind::Admin
    }

    fn get_name(&self) -> (name: &str) {
        self.spec.configuration.username.as_str()
    }

    fn get_metadata(&self) -> (meta: &ObjectMeta) {
        &self.metadata
    }

    fn get_server_reference(&self) -> (r: &ServerReference) {
        &self.spec.server_reference
    }

    fn get_status(&self) -> (status: &Option<SftpgoAdminResourceStatus>) {
        &self.status
    }
}

impl SftpgoAdmin {
    /// The administrator that the management API is asked to hold:
    /// the declared values, the permissions as tokens, and enabled
    /// where the resource does not say.
    pub fn get_request(&self) -> (r: Result<AdminRequest, Error>)
        ensures
            r matches Ok(request) && request@ == admin_request_model(*self),
    {
        let admin_conf = &self.spec.configuration;
        let mut permissions: Vec<String> = Vec::new();
        let mut i: usize = 0;
        while i < admin_conf.permissions.len()
            invariant
                i <= admin_conf.permissions.len(),
                texts(permissions@) == admin_tokens(admin_conf.permissions@).take(i as int),
            decreases admin_conf.permissions.len() - i,
        {
            let token = admin_conf.permissions[i].to_string();
            proof {
                assert(texts(permissions@.push(token)) =~= texts(permissions@).push(token@));
                assert(admin_tokens(admin_conf.permissions@).take(i as int).push(
                    admin_tokens(admin_conf.permissions@)[i as int],
                ) =~= admin_tokens(admin_conf.permissions@).take(i + 1));
            }
            permissions.push(token);
            i += 1;
        }
        assert(admin_tokens(admin_conf.permissions@).take(i as int) =~= admin_tokens(
            admin_conf.permissions@,
        ));
        let status = match &admin_conf.enabled {
            Some(status) => status.map_enabled(),
            None => UserStatus::Enabled,
        };
        let request = AdminRequest {
            username: admin_conf.username.clone(),
            description: clone_optional_text(&admin_conf.description),
            password: admin_conf.password.clone(),
            email: clone_optional_text(&admin_conf.email),
            permissions,
            status,
            role: clone_optional_text(&admin_conf.role),
        };
        Ok(request)
    }
}

} // verus!

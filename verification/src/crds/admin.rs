//! The administrator resource.

use crate::crds::sftpgo_server_reference::ServerReference;
use crate::crds::sftpgo_status::SftpgoStatus;
use crate::crds::user::SftpgoUserStatus;
use crate::kubernetes::ObjectMeta;
use vstd::prelude::*;

verus! {

/// What an administrator is allowed to do.
#[derive(Debug, Clone, Copy, PartialEq, Eq, Structural)]
pub enum AdminPermission {
    All,
    AddUsers,
    EditUsers,
    DelUsers,
    ViewUsers,
    ViewConns,
    CloseConns,
    ViewStatus,
    ManageAdmins,
    ManageGroups,
    ManageApikeys,
    QuotaScans,
    ManageSystem,
    ManageDefender,
    ViewDefender,
    RetentionChecks,
    MetadataChecks,
    ViewEvents,
    ManageEventRules,
    ManageRoles,
    ManageIpLists,
}

impl Default for AdminPermission {
    fn default() -> (r: Self)
        ensures
            r == AdminPermission::All,
    {
        AdminPermission::All
    }
}

impl AdminPermission {
    /// The token of the permission in the management API: `*` for every
    /// permission, else the name in lower case with underscores.
    pub open spec fn token(&self) -> Seq<char> {
        match self {
            AdminPermission::All => "*"@,
            AdminPermission::AddUsers => "add_users"@,
            AdminPermission::EditUsers => "edit_users"@,
            AdminPermission::DelUsers => "del_users"@,
            AdminPermission::ViewUsers => "view_users"@,
            AdminPermission::ViewConns => "view_conns"@,
            AdminPermission::CloseConns => "close_conns"@,
            AdminPermission::ViewStatus => "view_status"@,
            AdminPermission::ManageAdmins => "manage_admins"@,
            AdminPermission::ManageGroups => "manage_groups"@,
            AdminPermission::ManageApikeys => "manage_apikeys"@,
            AdminPermission::QuotaScans => "quota_scans"@,
            AdminPermission::ManageSystem => "manage_system"@,
            AdminPermission::ManageDefender => "manage_defender"@,
            AdminPermission::ViewDefender => "view_defender"@,
            AdminPermission::RetentionChecks => "retention_checks"@,
            AdminPermission::MetadataChecks => "metadata_checks"@,
            AdminPermission::ViewEvents => "view_events"@,
            AdminPermission::ManageEventRules => "manage_event_rules"@,
            AdminPermission::ManageRoles => "manage_roles"@,
            AdminPermission::ManageIpLists => "manage_ip_lists"@,
        }
    }

    /// The token of the permission in the management API.
    pub fn to_string(&self) -> (r: String)
        ensures
            r@ == self.token(),
    {
        match self {
            AdminPermission::All => "*".to_owned(),
            AdminPermission::AddUsers => "add_users".to_owned(),
            AdminPermission::EditUsers => "edit_users".to_owned(),
            AdminPermission::DelUsers => "del_users".to_owned(),
            AdminPermission::ViewUsers => "view_users".to_owned(),
            AdminPermission::ViewConns => "view_conns".to_owned(),
            AdminPermission::CloseConns => "close_conns".to_owned(),
            AdminPermission::ViewStatus => "view_status".to_owned(),
            AdminPermission::ManageAdmins => "manage_admins".to_owned(),
            AdminPermission::ManageGroups => "manage_groups".to_owned(),
            AdminPermission::ManageApikeys => "manage_apikeys".to_owned(),
            AdminPermission::QuotaScans => "quota_scans".to_owned(),
            AdminPermission::ManageSystem => "manage_system".to_owned(),
            AdminPermission::ManageDefender => "manage_defender".to_owned(),
            AdminPermission::ViewDefender => "view_defender".to_owned(),
            AdminPermission::RetentionChecks => "retention_checks".to_owned(),
            AdminPermission::MetadataChecks => "metadata_checks".to_owned(),
            AdminPermission::ViewEvents => "view_events".to_owned(),
            AdminPermission::ManageEventRules => "manage_event_rules".to_owned(),
            AdminPermission::ManageRoles => "manage_roles".to_owned(),
            AdminPermission::ManageIpLists => "manage_ip_lists".to_owned(),
        }
    }
}

/// What a resource declares of an administrator.
#[derive(Debug, Clone, PartialEq)]
pub struct SftpgoAdminConfiguration {
    /// The name that the administrator signs in with.
    pub username: String,
    /// A description, for example the full name.
    pub description: Option<String>,
    /// The password. It is sent on every write, and never read back.
    pub password: String,
    pub enabled: Option<SftpgoUserStatus>,
    pub email: Option<String>,
    pub permissions: Vec<AdminPermission>,
    /// If set, the administrator only manages users with the same role.
    pub role: Option<String>,
}

/// What the author of an administrator resource asks for.
#[derive(Debug, Clone, PartialEq)]
pub struct SftpgoAdminSpec {
    pub configuration: SftpgoAdminConfiguration,
    pub server_reference: ServerReference,
}

/// The status of an administrator resource.
#[derive(Debug, Clone, PartialEq)]
pub struct SftpgoAdminResourceStatus {
    pub last_username: String,
    pub admin_id: Option<i32>,
}

impl Default for SftpgoAdminResourceStatus {
    fn default() -> (r: Self)
        ensures
            r.last_username@ == Seq::<char>::empty(),
            r.admin_id is None,
    {
        SftpgoAdminResourceStatus { last_username: String::new(), admin_id: None }
    }
}

impl SftpgoStatus for SftpgoAdminResourceStatus {
    open spec fn last_name(&self) -> Seq<char> {
        self.last_username@
    }

    open spec fn id(&self) -> Option<i32> {
        self.admin_id
    }

    fn get_last_name(&self) -> (name: &str) {
        self.last_username.as_str()
    }

    fn set_last_name(&mut self, name: &str) {
        self.last_username = name.to_owned();
    }

    fn get_id(&self) -> (id: Option<i32>) {
        self.admin_id
    }

    fn set_id(&mut self, id: Option<i32>) {
        self.admin_id = id;
    }
}

/// An administrator resource as the cluster holds it.
#[derive(Debug, Clone, PartialEq)]
pub struct SftpgoAdmin {
    pub metadata: ObjectMeta,
    pub spec: SftpgoAdminSpec,
    pub status: Option<SftpgoAdminResourceStatus>,
}

} // verus!

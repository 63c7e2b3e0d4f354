//! The server resource: the nested configuration of an SFTPGo instance
//! and how each part of it is laid out as a structured value.

use crate::crds::value::{
    record_push, unit_variant, Field, FieldView, ToValue, Value, ValueView,
};
use crate::kubernetes::ObjectMeta;
use crate::string_map::StringMap;
use vstd::prelude::*;

verus! {

/// How uploads are written to their target.
#[derive(Debug, Clone, Copy, PartialEq, Eq)]
pub enum UploadMode {
    Standard,
    Atomic,
    AtomicWithResumeSupport,
}

impl Default for UploadMode {
    fn default() -> (r: Self)
        ensures
            r == UploadMode::Standard,
    {
        UploadMode::Standard
    }
}

impl UploadMode {
    /// The tag under which the variant is written.
    pub open spec fn tag(&self) -> Seq<char> {
        match self {
            UploadMode::Standard => "Standard"@,
            UploadMode::Atomic => "Atomic"@,
            UploadMode::AtomicWithResumeSupport => "AtomicWithResumeSupport"@,
        }
    }
}

impl ToValue for UploadMode {
    open spec fn value_view(&self) -> ValueView {
        ValueView::UnitVariant(self.tag())
    }

    proof fn lemma_supported(&self) {
    }

    fn to_value(&self) -> (v: Value) {
        match self {
            UploadMode::Standard => unit_variant("Standard"),
            UploadMode::Atomic => unit_variant("Atomic"),
            UploadMode::AtomicWithResumeSupport => unit_variant("AtomicWithResumeSupport"),
        }
    }
}

/// Settings shared by every protocol.
#[derive(Debug, Clone, PartialEq, Default)]
pub struct Common {
    pub idle_timeout: Option<i64>,
    pub upload_mode: Option<UploadMode>,
    pub actions: Option<Actions>,
    pub setstat_mode: Option<i64>,
    pub rename_mode: Option<i64>,
    pub temp_path: Option<String>,
    pub proxy_protocol: Option<Option<i64>>,
    pub proxy_allowed: Option<Vec<String>>,
    pub proxy_skipped: Option<Vec<String>>,
    pub startup_hook: Option<String>,
    pub post_connect_hook: Option<String>,
    pub post_disconnect_hook: Option<String>,
    pub data_retention_hook: Option<String>,
    pub max_total_connections: Option<i64>,
    pub max_per_host_connections: Option<i64>,
    pub allowlist_status: Option<i64>,
    pub allow_self_connections: Option<i64>,
    pub defender: Option<Defender>,
    pub rate_limiters: Option<Vec<RateLimiter>>,
}

impl ToValue for Common {
    open spec fn value_view(&self) -> ValueView {
        ValueView::Record(
            Seq::empty()
                .push(FieldView { name: "idle_timeout"@, value: self.idle_timeout.value_view() })
                .push(FieldView { name: "upload_mode"@, value: self.upload_mode.value_view() })
                .push(FieldView { name: "actions"@, value: self.actions.value_view() })
                .push(FieldView { name: "setstat_mode"@, value: self.setstat_mode.value_view() })
                .push(FieldView { name: "rename_mode"@, value: self.rename_mode.value_view() })
                .push(FieldView { name: "temp_path"@, value: self.temp_path.value_view() })
                .push(FieldView { name: "proxy_protocol"@, value: self.proxy_protocol.value_view() })
                .push(FieldView { name: "proxy_allowed"@, value: self.proxy_allowed.value_view() })
                .push(FieldView { name: "proxy_skipped"@, value: self.proxy_skipped.value_view() })
                .push(FieldView { name: "startup_hook"@, value: self.startup_hook.value_view() })
                .push(FieldView { name: "post_connect_hook"@, value: self.post_connect_hook.value_view() })
                .push(FieldView { name: "post_disconnect_hook"@, value: self.post_disconnect_hook.value_view() })
                .push(FieldView { name: "data_retention_hook"@, value: self.data_retention_hook.value_view() })
                .push(FieldView { name: "max_total_connections"@, value: self.max_total_connections.value_view() })
                .push(FieldView { name: "max_per_host_connections"@, value: self.max_per_host_connections.value_view() })
                .push(FieldView { name: "allowlist_status"@, value: self.allowlist_status.value_view() })
                .push(FieldView { name: "allow_self_connections"@, value: self.allow_self_connections.value_view() })
                .push(FieldView { name: "defender"@, value: self.defender.value_view() })
                .push(FieldView { name: "rate_limiters"@, value: self.rate_limiters.value_view() }),
        )
    }

    proof fn lemma_supported(&self) {
        self.idle_timeout.lemma_supported();
        self.upload_mode.lemma_supported();
        self.actions.lemma_supported();
        self.setstat_mode.lemma_supported();
        self.rename_mode.lemma_supported();
        self.temp_path.lemma_supported();
        self.proxy_protocol.lemma_supported();
        self.proxy_allowed.lemma_supported();
        self.proxy_skipped.lemma_supported();
        self.startup_hook.lemma_supported();
        self.post_connect_hook.lemma_supported();
        self.post_disconnect_hook.lemma_supported();
        self.data_retention_hook.lemma_supported();
        self.max_total_connections.lemma_supported();
        self.max_per_host_connections.lemma_supported();
        self.allowlist_status.lemma_supported();
        self.allow_self_connections.lemma_supported();
        self.defender.lemma_supported();
        self.rate_limiters.lemma_supported();
    }

    fn to_value(&self) -> (v: Value) {
        let mut fields: Vec<Field> = Vec::new();
        record_push(&mut fields, "idle_timeout", self.idle_timeout.to_value());
        record_push(&mut fields, "upload_mode", self.upload_mode.to_value());
        record_push(&mut fields, "actions", self.actions.to_value());
        record_push(&mut fields, "setstat_mode", self.setstat_mode.to_value());
        record_push(&mut fields, "rename_mode", self.rename_mode.to_value());
        record_push(&mut fields, "temp_path", self.temp_path.to_value());
        record_push(&mut fields, "proxy_protocol", self.proxy_protocol.to_value());
        record_push(&mut fields, "proxy_allowed", self.proxy_allowed.to_value());
        record_push(&mut fields, "proxy_skipped", self.proxy_skipped.to_value());
        record_push(&mut fields, "startup_hook", self.startup_hook.to_value());
        record_push(&mut fields, "post_connect_hook", self.post_connect_hook.to_value());
        record_push(&mut fields, "post_disconnect_hook", self.post_disconnect_hook.to_value());
        record_push(&mut fields, "data_retention_hook", self.data_retention_hook.to_value());
        record_push(&mut fields, "max_total_connections", self.max_total_connections.to_value());
        record_push(&mut fields, "max_per_host_connections", self.max_per_host_connections.to_value());
        record_push(&mut fields, "allowlist_status", self.allowlist_status.to_value());
        record_push(&mut fields, "allow_self_connections", self.allow_self_connections.to_value());
        record_push(&mut fields, "defender", self.defender.to_value());
        record_push(&mut fields, "rate_limiters", self.rate_limiters.to_value());
        Value::Record(fields)
    }
}

/// Hooks run on file-system and SSH events.
#[derive(Debug, Clone, PartialEq, Default)]
pub struct Actions {
    pub execute_on: Option<Vec<String>>,
    pub execute_sync: Option<Vec<String>>,
    pub hook: Option<String>,
}

impl ToValue for Actions {
    open spec fn value_view(&self) -> ValueView {
        ValueView::Record(
            Seq::empty()
                .push(FieldView { name: "execute_on"@, value: self.execute_on.value_view() })
                .push(FieldView { name: "execute_sync"@, value: self.execute_sync.value_view() })
                .push(FieldView { name: "hook"@, value: self.hook.value_view() }),
        )
    }

    proof fn lemma_supported(&self) {
        self.execute_on.lemma_supported();
        self.execute_sync.lemma_supported();
        self.hook.lemma_supported();
    }

    fn to_value(&self) -> (v: Value) {
        let mut fields: Vec<Field> = Vec::new();
        record_push(&mut fields, "execute_on", self.execute_on.to_value());
        record_push(&mut fields, "execute_sync", self.execute_sync.to_value());
        record_push(&mut fields, "hook", self.hook.to_value());
        Value::Record(fields)
    }
}

/// The brute-force defender.
#[derive(Debug, Clone, PartialEq, Default)]
pub struct Defender {
    pub enabled: Option<bool>,
    pub driver: Option<String>,
    pub ban_time: Option<i64>,
    pub ban_time_increment: Option<i64>,
    pub threshold: Option<i64>,
    pub score_invalid: Option<i64>,
    pub score_valid: Option<i64>,
    pub score_limit_exceeded: Option<i64>,
    pub score_no_auth: Option<i64>,
    pub observation_time: Option<i64>,
    pub entries_soft_limit: Option<i64>,
    pub entries_hard_limit: Option<i64>,
}

impl ToValue for Defender {
    open spec fn value_view(&self) -> ValueView {
        ValueView::Record(
            Seq::empty()
                .push(FieldView { name: "enabled"@, value: self.enabled.value_view() })
                .push(FieldView { name: "driver"@, value: self.driver.value_view() })
                .push(FieldView { name: "ban_time"@, value: self.ban_time.value_view() })
                .push(FieldView { name: "ban_time_increment"@, value: self.ban_time_increment.value_view() })
                .push(FieldView { name: "threshold"@, value: self.threshold.value_view() })
                .push(FieldView { name: "score_invalid"@, value: self.score_invalid.value_view() })
                .push(FieldView { name: "score_valid"@, value: self.score_valid.value_view() })
                .push(FieldView { name: "score_limit_exceeded"@, value: self.score_limit_exceeded.value_view() })
                .push(FieldView { name: "score_no_auth"@, value: self.score_no_auth.value_view() })
                .push(FieldView { name: "observation_time"@, value: self.observation_time.value_view() })
                .push(FieldView { name: "entries_soft_limit"@, value: self.entries_soft_limit.value_view() })
                .push(FieldView { name: "entries_hard_limit"@, value: self.entries_hard_limit.value_view() }),
        )
    }

    proof fn lemma_supported(&self) {
        self.enabled.lemma_supported();
        self.driver.lemma_supported();
        self.ban_time.lemma_supported();
        self.ban_time_increment.lemma_supported();
        self.threshold.lemma_supported();
        self.score_invalid.lemma_supported();
        self.score_valid.lemma_supported();
        self.score_limit_exceeded.lemma_supported();
        self.score_no_auth.lemma_supported();
        self.observation_time.lemma_supported();
        self.entries_soft_limit.lemma_supported();
        self.entries_hard_limit.lemma_supported();
    }

    fn to_value(&self) -> (v: Value) {
        let mut fields: Vec<Field> = Vec::new();
        record_push(&mut fields, "enabled", self.enabled.to_value());
        record_push(&mut fields, "driver", self.driver.to_value());
        record_push(&mut fields, "ban_time", self.ban_time.to_value());
        record_push(&mut fields, "ban_time_increment", self.ban_time_increment.to_value());
        record_push(&mut fields, "threshold", self.threshold.to_value());
        record_push(&mut fields, "score_invalid", self.score_invalid.to_value());
        record_push(&mut fields, "score_valid", self.score_valid.to_value());
        record_push(&mut fields, "score_limit_exceeded", self.score_limit_exceeded.to_value());
        record_push(&mut fields, "score_no_auth", self.score_no_auth.to_value());
        record_push(&mut fields, "observation_time", self.observation_time.to_value());
        record_push(&mut fields, "entries_soft_limit", self.entries_soft_limit.to_value());
        record_push(&mut fields, "entries_hard_limit", self.entries_hard_limit.to_value());
        Value::Record(fields)
    }
}

/// One rate limiter.
#[derive(Debug, Clone, PartialEq, Default)]
pub struct RateLimiter {
    pub average: Option<i64>,
    pub period: Option<i64>,
    pub burst: Option<i64>,
    pub type_field: Option<i64>,
    pub protocols: Option<Vec<String>>,
    pub generate_defender_events: Option<bool>,
    pub entries_soft_limit: Option<i64>,
    pub entries_hard_limit: Option<i64>,
}

impl ToValue for RateLimiter {
    open spec fn value_view(&self) -> ValueView {
        ValueView::Record(
            Seq::empty()
                .push(FieldView { name: "average"@, value: self.average.value_view() })
                .push(FieldView { name: "period"@, value: self.period.value_view() })
                .push(FieldView { name: "burst"@, value: self.burst.value_view() })
                .push(FieldView { name: "type"@, value: self.type_field.value_view() })
                .push(FieldView { name: "protocols"@, value: self.protocols.value_view() })
                .push(FieldView { name: "generate_defender_events"@, value: self.generate_defender_events.value_view() })
                .push(FieldView { name: "entries_soft_limit"@, value: self.entries_soft_limit.value_view() })
                .push(FieldView { name: "entries_hard_limit"@, value: self.entries_hard_limit.value_view() }),
        )
    }

    proof fn lemma_supported(&self) {
        self.average.lemma_supported();
        self.period.lemma_supported();
        self.burst.lemma_supported();
        self.type_field.lemma_supported();
        self.protocols.lemma_supported();
        self.generate_defender_events.lemma_supported();
        self.entries_soft_limit.lemma_supported();
        self.entries_hard_limit.lemma_supported();
    }

    fn to_value(&self) -> (v: Value) {
        let mut fields: Vec<Field> = Vec::new();
        record_push(&mut fields, "average", self.average.to_value());
        record_push(&mut fields, "period", self.period.to_value());
        record_push(&mut fields, "burst", self.burst.to_value());
        record_push(&mut fields, "type", self.type_field.to_value());
        record_push(&mut fields, "protocols", self.protocols.to_value());
        record_push(&mut fields, "generate_defender_events", self.generate_defender_events.to_value());
        record_push(&mut fields, "entries_soft_limit", self.entries_soft_limit.to_value());
        record_push(&mut fields, "entries_hard_limit", self.entries_hard_limit.to_value());
        Value::Record(fields)
    }
}

/// Certificates obtained through ACME.
#[derive(Debug, Clone, PartialEq, Default)]
pub struct Acme {
    pub domains: Option<Vec<String>>,
    pub email: Option<String>,
    pub key_type: Option<String>,
    pub certs_path: Option<String>,
    pub ca_endpoint: Option<String>,
    pub renew_days: Option<i64>,
    pub http01_challenge: Option<Http01Challenge>,
    pub tls_alpn01_challenge: Option<TlsAlpn01Challenge>,
}

impl ToValue for Acme {
    open spec fn value_view(&self) -> ValueView {
        ValueView::Record(
            Seq::empty()
                .push(FieldView { name: "domains"@, value: self.domains.value_view() })
                .push(FieldView { name: "email"@, value: self.email.value_view() })
                .push(FieldView { name: "key_type"@, value: self.key_type.value_view() })
                .push(FieldView { name: "certs_path"@, value: self.certs_path.value_view() })
                .push(FieldView { name: "ca_endpoint"@, value: self.ca_endpoint.value_view() })
                .push(FieldView { name: "renew_days"@, value: self.renew_days.value_view() })
                .push(FieldView { name: "http01_challenge"@, value: self.http01_challenge.value_view() })
                .push(FieldView { name: "tls_alpn01_challenge"@, value: self.tls_alpn01_challenge.value_view() }),
        )
    }

    proof fn lemma_supported(&self) {
        self.domains.lemma_supported();
        self.email.lemma_supported();
        self.key_type.lemma_supported();
        self.certs_path.lemma_supported();
        self.ca_endpoint.lemma_supported();
        self.renew_days.lemma_supported();
        self.http01_challenge.lemma_supported();
        self.tls_alpn01_challenge.lemma_supported();
    }

    fn to_value(&self) -> (v: Value) {
        let mut fields: Vec<Field> = Vec::new();
        record_push(&mut fields, "domains", self.domains.to_value());
        record_push(&mut fields, "email", self.email.to_value());
        record_push(&mut fields, "key_type", self.key_type.to_value());
        record_push(&mut fields, "certs_path", self.certs_path.to_value());
        record_push(&mut fields, "ca_endpoint", self.ca_endpoint.to_value());
        record_push(&mut fields, "renew_days", self.renew_days.to_value());
        record_push(&mut fields, "http01_challenge", self.http01_challenge.to_value());
        record_push(&mut fields, "tls_alpn01_challenge", self.tls_alpn01_challenge.to_value());
        Value::Record(fields)
    }
}

/// The HTTP-01 challenge of ACME.
#[derive(Debug, Clone, PartialEq, Default)]
pub struct Http01Challenge {
    pub port: Option<i64>,
    pub proxy_header: Option<String>,
    pub webroot: Option<String>,
}

impl ToValue for Http01Challenge {
    open spec fn value_view(&self) -> ValueView {
        ValueView::Record(
            Seq::empty()
                .push(FieldView { name: "port"@, value: self.port.value_view() })
                .push(FieldView { name: "proxy_header"@, value: self.proxy_header.value_view() })
                .push(FieldView { name: "webroot"@, value: self.webroot.value_view() }),
        )
    }

    proof fn lemma_supported(&self) {
        self.port.lemma_supported();
        self.proxy_header.lemma_supported();
        self.webroot.lemma_supported();
    }

    fn to_value(&self) -> (v: Value) {
        let mut fields: Vec<Field> = Vec::new();
        record_push(&mut fields, "port", self.port.to_value());
        record_push(&mut fields, "proxy_header", self.proxy_header.to_value());
        record_push(&mut fields, "webroot", self.webroot.to_value());
        Value::Record(fields)
    }
}

/// The TLS-ALPN-01 challenge of ACME.
#[derive(Debug, Clone, PartialEq, Default)]
pub struct TlsAlpn01Challenge {
    pub port: Option<i64>,
}

impl ToValue for TlsAlpn01Challenge {
    open spec fn value_view(&self) -> ValueView {
        ValueView::Record(
            Seq::empty()
                .push(FieldView { name: "port"@, value: self.port.value_view() }),
        )
    }

    proof fn lemma_supported(&self) {
        self.port.lemma_supported();
    }

    fn to_value(&self) -> (v: Value) {
        let mut fields: Vec<Field> = Vec::new();
        record_push(&mut fields, "port", self.port.to_value());
        Value::Record(fields)
    }
}

/// The SFTP server.
#[derive(Debug, Clone, PartialEq, Default)]
pub struct Sftpd {
    pub bindings: Option<Vec<SftpdBinding>>,
    pub max_auth_tries: Option<i64>,
    pub banner: Option<String>,
    pub host_keys: Option<Vec<String>>,
    pub host_certificates: Option<Vec<String>>,
    pub host_key_algorithms: Option<Vec<String>>,
    pub moduli: Option<Vec<String>>,
    pub kex_algorithms: Option<Vec<String>>,
    pub ciphers: Option<Vec<String>>,
    pub macs: Option<Vec<String>>,
    pub trusted_user_ca_keys: Option<Vec<String>>,
    pub revoked_user_certs_file: Option<String>,
    pub login_banner_file: Option<String>,
    pub enabled_ssh_commands: Option<Vec<String>>,
    pub keyboard_interactive_authentication: Option<bool>,
    pub keyboard_interactive_auth_hook: Option<String>,
    pub password_authentication: Option<bool>,
    pub folder_prefix: Option<String>,
}

impl ToValue for Sftpd {
    open spec fn value_view(&self) -> ValueView {
        ValueView::Record(
            Seq::empty()
                .push(FieldView { name: "bindings"@, value: self.bindings.value_view() })
                .push(FieldView { name: "max_auth_tries"@, value: self.max_auth_tries.value_view() })
                .push(FieldView { name: "banner"@, value: self.banner.value_view() })
                .push(FieldView { name: "host_keys"@, value: self.host_keys.value_view() })
                .push(FieldView { name: "host_certificates"@, value: self.host_certificates.value_view() })
                .push(FieldView { name: "host_key_algorithms"@, value: self.host_key_algorithms.value_view() })
                .push(FieldView { name: "moduli"@, value: self.moduli.value_view() })
                .push(FieldView { name: "kex_algorithms"@, value: self.kex_algorithms.value_view() })
                .push(FieldView { name: "ciphers"@, value: self.ciphers.value_view() })
                .push(FieldView { name: "macs"@, value: self.macs.value_view() })
                .push(FieldView { name: "trusted_user_ca_keys"@, value: self.trusted_user_ca_keys.value_view() })
                .push(FieldView { name: "revoked_user_certs_file"@, value: self.revoked_user_certs_file.value_view() })
                .push(FieldView { name: "login_banner_file"@, value: self.login_banner_file.value_view() })
                .push(FieldView { name: "enabled_ssh_commands"@, value: self.enabled_ssh_commands.value_view() })
                .push(FieldView { name: "keyboard_interactive_authentication"@, value: self.keyboard_interactive_authentication.value_view() })
                .push(FieldView { name: "keyboard_interactive_auth_hook"@, value: self.keyboard_interactive_auth_hook.value_view() })
                .push(FieldView { name: "password_authentication"@, value: self.password_authentication.value_view() })
                .push(FieldView { name: "folder_prefix"@, value: self.folder_prefix.value_view() }),
        )
    }

    proof fn lemma_supported(&self) {
        self.bindings.lemma_supported();
        self.max_auth_tries.lemma_supported();
        self.banner.lemma_supported();
        self.host_keys.lemma_supported();
        self.host_certificates.lemma_supported();
        self.host_key_algorithms.lemma_supported();
        self.moduli.lemma_supported();
        self.kex_algorithms.lemma_supported();
        self.ciphers.lemma_supported();
        self.macs.lemma_supported();
        self.trusted_user_ca_keys.lemma_supported();
        self.revoked_user_certs_file.lemma_supported();
        self.login_banner_file.lemma_supported();
        self.enabled_ssh_commands.lemma_supported();
        self.keyboard_interactive_authentication.lemma_supported();
        self.keyboard_interactive_auth_hook.lemma_supported();
        self.password_authentication.lemma_supported();
        self.folder_prefix.lemma_supported();
    }

    fn to_value(&self) -> (v: Value) {
        let mut fields: Vec<Field> = Vec::new();
        record_push(&mut fields, "bindings", self.bindings.to_value());
        record_push(&mut fields, "max_auth_tries", self.max_auth_tries.to_value());
        record_push(&mut fields, "banner", self.banner.to_value());
        record_push(&mut fields, "host_keys", self.host_keys.to_value());
        record_push(&mut fields, "host_certificates", self.host_certificates.to_value());
        record_push(&mut fields, "host_key_algorithms", self.host_key_algorithms.to_value());
        record_push(&mut fields, "moduli", self.moduli.to_value());
        record_push(&mut fields, "kex_algorithms", self.kex_algorithms.to_value());
        record_push(&mut fields, "ciphers", self.ciphers.to_value());
        record_push(&mut fields, "macs", self.macs.to_value());
        record_push(&mut fields, "trusted_user_ca_keys", self.trusted_user_ca_keys.to_value());
        record_push(&mut fields, "revoked_user_certs_file", self.revoked_user_certs_file.to_value());
        record_push(&mut fields, "login_banner_file", self.login_banner_file.to_value());
        record_push(&mut fields, "enabled_ssh_commands", self.enabled_ssh_commands.to_value());
        record_push(&mut fields, "keyboard_interactive_authentication", self.keyboard_interactive_authentication.to_value());
        record_push(&mut fields, "keyboard_interactive_auth_hook", self.keyboard_interactive_auth_hook.to_value());
        record_push(&mut fields, "password_authentication", self.password_authentication.to_value());
        record_push(&mut fields, "folder_prefix", self.folder_prefix.to_value());
        Value::Record(fields)
    }
}

/// One address and port the SFTP server listens on.
#[derive(Debug, Clone, PartialEq, Default)]
pub struct SftpdBinding {
    pub port: Option<i64>,
    pub address: Option<String>,
    pub apply_proxy_config: Option<bool>,
}

impl ToValue for SftpdBinding {
    open spec fn value_view(&self) -> ValueView {
        ValueView::Record(
            Seq::empty()
                .push(FieldView { name: "port"@, value: self.port.value_view() })
                .push(FieldView { name: "address"@, value: self.address.value_view() })
                .push(FieldView { name: "apply_proxy_config"@, value: self.apply_proxy_config.value_view() }),
        )
    }

    proof fn lemma_supported(&self) {
        self.port.lemma_supported();
        self.address.lemma_supported();
        self.apply_proxy_config.lemma_supported();
    }

    fn to_value(&self) -> (v: Value) {
        let mut fields: Vec<Field> = Vec::new();
        record_push(&mut fields, "port", self.port.to_value());
        record_push(&mut fields, "address", self.address.to_value());
        record_push(&mut fields, "apply_proxy_config", self.apply_proxy_config.to_value());
        Value::Record(fields)
    }
}

/// The FTP server.
#[derive(Debug, Clone, PartialEq, Default)]
pub struct Ftpd {
    pub bindings: Option<Vec<FtpdBinding>>,
    pub banner: Option<String>,
    pub banner_file: Option<String>,
    pub active_transfers_port_non_20: Option<bool>,
    pub passive_port_range: Option<PassivePortRange>,
    pub disable_active_mode: Option<bool>,
    pub enable_site: Option<bool>,
    pub hash_support: Option<i64>,
    pub combine_support: Option<i64>,
    pub certificate_file: Option<String>,
    pub certificate_key_file: Option<String>,
    pub ca_certificates: Option<Vec<String>>,
    pub ca_revocation_lists: Option<Vec<String>>,
}

impl ToValue for Ftpd {
    open spec fn value_view(&self) -> ValueView {
        ValueView::Record(
            Seq::empty()
                .push(FieldView { name: "bindings"@, value: self.bindings.value_view() })
                .push(FieldView { name: "banner"@, value: self.banner.value_view() })
                .push(FieldView { name: "banner_file"@, value: self.banner_file.value_view() })
                .push(FieldView { name: "active_transfers_port_non_20"@, value: self.active_transfers_port_non_20.value_view() })
                .push(FieldView { name: "passive_port_range"@, value: self.passive_port_range.value_view() })
                .push(FieldView { name: "disable_active_mode"@, value: self.disable_active_mode.value_view() })
                .push(FieldView { name: "enable_site"@, value: self.enable_site.value_view() })
                .push(FieldView { name: "hash_support"@, value: self.hash_support.value_view() })
                .push(FieldView { name: "combine_support"@, value: self.combine_support.value_view() })
                .push(FieldView { name: "certificate_file"@, value: self.certificate_file.value_view() })
                .push(FieldView { name: "certificate_key_file"@, value: self.certificate_key_file.value_view() })
                .push(FieldView { name: "ca_certificates"@, value: self.ca_certificates.value_view() })
                .push(FieldView { name: "ca_revocation_lists"@, value: self.ca_revocation_lists.value_view() }),
        )
    }

    proof fn lemma_supported(&self) {
        self.bindings.lemma_supported();
        self.banner.lemma_supported();
        self.banner_file.lemma_supported();
        self.active_transfers_port_non_20.lemma_supported();
        self.passive_port_range.lemma_supported();
        self.disable_active_mode.lemma_supported();
        self.enable_site.lemma_supported();
        self.hash_support.lemma_supported();
        self.combine_support.lemma_supported();
        self.certificate_file.lemma_supported();
        self.certificate_key_file.lemma_supported();
        self.ca_certificates.lemma_supported();
        self.ca_revocation_lists.lemma_supported();
    }

    fn to_value(&self) -> (v: Value) {
        let mut fields: Vec<Field> = Vec::new();
        record_push(&mut fields, "bindings", self.bindings.to_value());
        record_push(&mut fields, "banner", self.banner.to_value());
        record_push(&mut fields, "banner_file", self.banner_file.to_value());
        record_push(&mut fields, "active_transfers_port_non_20", self.active_transfers_port_non_20.to_value());
        record_push(&mut fields, "passive_port_range", self.passive_port_range.to_value());
        record_push(&mut fields, "disable_active_mode", self.disable_active_mode.to_value());
        record_push(&mut fields, "enable_site", self.enable_site.to_value());
        record_push(&mut fields, "hash_support", self.hash_support.to_value());
        record_push(&mut fields, "combine_support", self.combine_support.to_value());
        record_push(&mut fields, "certificate_file", self.certificate_file.to_value());
        record_push(&mut fields, "certificate_key_file", self.certificate_key_file.to_value());
        record_push(&mut fields, "ca_certificates", self.ca_certificates.to_value());
        record_push(&mut fields, "ca_revocation_lists", self.ca_revocation_lists.to_value());
        Value::Record(fields)
    }
}

/// One address and port the FTP server listens on.
#[derive(Debug, Clone, PartialEq, Default)]
pub struct FtpdBinding {
    pub port: Option<i64>,
    pub address: Option<String>,
    pub apply_proxy_config: Option<bool>,
    pub tls_mode: Option<i64>,
    pub certificate_file: Option<String>,
    pub certificate_key_file: Option<String>,
    pub min_tls_version: Option<i64>,
    pub force_passive_ip: Option<String>,
    pub passive_ip_overrides: Option<Vec<FtpdBindingPassiveIpOverride>>,
    pub passive_host: Option<String>,
    pub client_auth_type: Option<i64>,
    pub tls_cipher_suites: Option<Vec<String>>,
    pub passive_connections_security: Option<i64>,
    pub active_connections_security: Option<i64>,
    pub debug: Option<bool>,
}

impl ToValue for FtpdBinding {
    open spec fn value_view(&self) -> ValueView {
        ValueView::Record(
            Seq::empty()
                .push(FieldView { name: "port"@, value: self.port.value_view() })
                .push(FieldView { name: "address"@, value: self.address.value_view() })
                .push(FieldView { name: "apply_proxy_config"@, value: self.apply_proxy_config.value_view() })
                .push(FieldView { name: "tls_mode"@, value: self.tls_mode.value_view() })
                .push(FieldView { name: "certificate_file"@, value: self.certificate_file.value_view() })
                .push(FieldView { name: "certificate_key_file"@, value: self.certificate_key_file.value_view() })
                .push(FieldView { name: "min_tls_version"@, value: self.min_tls_version.value_view() })
                .push(FieldView { name: "force_passive_ip"@, value: self.force_passive_ip.value_view() })
                .push(FieldView { name: "passive_ip_overrides"@, value: self.passive_ip_overrides.value_view() })
                .push(FieldView { name: "passive_host"@, value: self.passive_host.value_view() })
                .push(FieldView { name: "client_auth_type"@, value: self.client_auth_type.value_view() })
                .push(FieldView { name: "tls_cipher_suites"@, value: self.tls_cipher_suites.value_view() })
                .push(FieldView { name: "passive_connections_security"@, value: self.passive_connections_security.value_view() })
                .push(FieldView { name: "active_connections_security"@, value: self.active_connections_security.value_view() })
                .push(FieldView { name: "debug"@, value: self.debug.value_view() }),
        )
    }

    proof fn lemma_supported(&self) {
        self.port.lemma_supported();
        self.address.lemma_supported();
        self.apply_proxy_config.lemma_supported();
        self.tls_mode.lemma_supported();
        self.certificate_file.lemma_supported();
        self.certificate_key_file.lemma_supported();
        self.min_tls_version.lemma_supported();
        self.force_passive_ip.lemma_supported();
        self.passive_ip_overrides.lemma_supported();
        self.passive_host.lemma_supported();
        self.client_auth_type.lemma_supported();
        self.tls_cipher_suites.lemma_supported();
        self.passive_connections_security.lemma_supported();
        self.active_connections_security.lemma_supported();
        self.debug.lemma_supported();
    }

    fn to_value(&self) -> (v: Value) {
        let mut fields: Vec<Field> = Vec::new();
        record_push(&mut fields, "port", self.port.to_value());
        record_push(&mut fields, "address", self.address.to_value());
        record_push(&mut fields, "apply_proxy_config", self.apply_proxy_config.to_value());
        record_push(&mut fields, "tls_mode", self.tls_mode.to_value());
        record_push(&mut fields, "certificate_file", self.certificate_file.to_value());
        record_push(&mut fields, "certificate_key_file", self.certificate_key_file.to_value());
        record_push(&mut fields, "min_tls_version", self.min_tls_version.to_value());
        record_push(&mut fields, "force_passive_ip", self.force_passive_ip.to_value());
        record_push(&mut fields, "passive_ip_overrides", self.passive_ip_overrides.to_value());
        record_push(&mut fields, "passive_host", self.passive_host.to_value());
        record_push(&mut fields, "client_auth_type", self.client_auth_type.to_value());
        record_push(&mut fields, "tls_cipher_suites", self.tls_cipher_suites.to_value());
        record_push(&mut fields, "passive_connections_security", self.passive_connections_security.to_value());
        record_push(&mut fields, "active_connections_security", self.active_connections_security.to_value());
        record_push(&mut fields, "debug", self.debug.to_value());
        Value::Record(fields)
    }
}

/// A passive IP for clients of given networks.
#[derive(Debug, Clone, PartialEq, Default)]
pub struct FtpdBindingPassiveIpOverride {
    pub networks: Option<Vec<String>>,
    pub ip: Option<String>,
}

impl ToValue for FtpdBindingPassiveIpOverride {
    open spec fn value_view(&self) -> ValueView {
        ValueView::Record(
            Seq::empty()
                .push(FieldView { name: "networks"@, value: self.networks.value_view() })
                .push(FieldView { name: "ip"@, value: self.ip.value_view() }),
        )
    }

    proof fn lemma_supported(&self) {
        self.networks.lemma_supported();
        self.ip.lemma_supported();
    }

    fn to_value(&self) -> (v: Value) {
        let mut fields: Vec<Field> = Vec::new();
        record_push(&mut fields, "networks", self.networks.to_value());
        record_push(&mut fields, "ip", self.ip.to_value());
        Value::Record(fields)
    }
}

/// The ports used for passive FTP data connections, both ends included.
#[derive(Debug, Clone, PartialEq, Default)]
pub struct PassivePortRange {
    pub start: Option<i64>,
    pub end: Option<i64>,
}

impl ToValue for PassivePortRange {
    open spec fn value_view(&self) -> ValueView {
        ValueView::Record(
            Seq::empty()
                .push(FieldView { name: "start"@, value: self.start.value_view() })
                .push(FieldView { name: "end"@, value: self.end.value_view() }),
        )
    }

    proof fn lemma_supported(&self) {
        self.start.lemma_supported();
        self.end.lemma_supported();
    }

    fn to_value(&self) -> (v: Value) {
        let mut fields: Vec<Field> = Vec::new();
        record_push(&mut fields, "start", self.start.to_value());
        record_push(&mut fields, "end", self.end.to_value());
        Value::Record(fields)
    }
}

/// The WebDAV server.
#[derive(Debug, Clone, PartialEq, Default)]
pub struct Webdavd {
    pub bindings: Option<Vec<WebdavdBinding>>,
    pub certificate_file: Option<String>,
    pub certificate_key_file: Option<String>,
    pub ca_certificates: Option<Vec<String>>,
    pub ca_revocation_lists: Option<Vec<String>>,
    pub cors: Option<Cors>,
    pub cache: Option<Cache>,
}

impl ToValue for Webdavd {
    open spec fn value_view(&self) -> ValueView {
        ValueView::Record(
            Seq::empty()
                .push(FieldView { name: "bindings"@, value: self.bindings.value_view() })
                .push(FieldView { name: "certificate_file"@, value: self.certificate_file.value_view() })
                .push(FieldView { name: "certificate_key_file"@, value: self.certificate_key_file.value_view() })
                .push(FieldView { name: "ca_certificates"@, value: self.ca_certificates.value_view() })
                .push(FieldView { name: "ca_revocation_lists"@, value: self.ca_revocation_lists.value_view() })
                .push(FieldView { name: "cors"@, value: self.cors.value_view() })
                .push(FieldView { name: "cache"@, value: self.cache.value_view() }),
        )
    }

    proof fn lemma_supported(&self) {
        self.bindings.lemma_supported();
        self.certificate_file.lemma_supported();
        self.certificate_key_file.lemma_supported();
        self.ca_certificates.lemma_supported();
        self.ca_revocation_lists.lemma_supported();
        self.cors.lemma_supported();
        self.cache.lemma_supported();
    }

    fn to_value(&self) -> (v: Value) {
        let mut fields: Vec<Field> = Vec::new();
        record_push(&mut fields, "bindings", self.bindings.to_value());
        record_push(&mut fields, "certificate_file", self.certificate_file.to_value());
        record_push(&mut fields, "certificate_key_file", self.certificate_key_file.to_value());
        record_push(&mut fields, "ca_certificates", self.ca_certificates.to_value());
        record_push(&mut fields, "ca_revocation_lists", self.ca_revocation_lists.to_value());
        record_push(&mut fields, "cors", self.cors.to_value());
        record_push(&mut fields, "cache", self.cache.to_value());
        Value::Record(fields)
    }
}

/// One address and port the WebDAV server listens on.
#[derive(Debug, Clone, PartialEq, Default)]
pub struct WebdavdBinding {
    pub port: Option<i64>,
    pub address: Option<String>,
    pub enable_https: Option<bool>,
    pub certificate_file: Option<String>,
    pub certificate_key_file: Option<String>,
    pub min_tls_version: Option<i64>,
    pub client_auth_type: Option<i64>,
    pub tls_cipher_suites: Option<Vec<String>>,
    pub prefix: Option<String>,
    pub proxy_allowed: Option<Vec<String>>,
    pub client_ip_proxy_header: Option<String>,
    pub client_ip_header_depth: Option<i64>,
    pub disable_www_auth_header: Option<bool>,
}

impl ToValue for WebdavdBinding {
    open spec fn value_view(&self) -> ValueView {
        ValueView::Record(
            Seq::empty()
                .push(FieldView { name: "port"@, value: self.port.value_view() })
                .push(FieldView { name: "address"@, value: self.address.value_view() })
                .push(FieldView { name: "enable_https"@, value: self.enable_https.value_view() })
                .push(FieldView { name: "certificate_file"@, value: self.certificate_file.value_view() })
                .push(FieldView { name: "certificate_key_file"@, value: self.certificate_key_file.value_view() })
                .push(FieldView { name: "min_tls_version"@, value: self.min_tls_version.value_view() })
                .push(FieldView { name: "client_auth_type"@, value: self.client_auth_type.value_view() })
                .push(FieldView { name: "tls_cipher_suites"@, value: self.tls_cipher_suites.value_view() })
                .push(FieldView { name: "prefix"@, value: self.prefix.value_view() })
                .push(FieldView { name: "proxy_allowed"@, value: self.proxy_allowed.value_view() })
                .push(FieldView { name: "client_ip_proxy_header"@, value: self.client_ip_proxy_header.value_view() })
                .push(FieldView { name: "client_ip_header_depth"@, value: self.client_ip_header_depth.value_view() })
                .push(FieldView { name: "disable_www_auth_header"@, value: self.disable_www_auth_header.value_view() }),
        )
    }

    proof fn lemma_supported(&self) {
        self.port.lemma_supported();
        self.address.lemma_supported();
        self.enable_https.lemma_supported();
        self.certificate_file.lemma_supported();
        self.certificate_key_file.lemma_supported();
        self.min_tls_version.lemma_supported();
        self.client_auth_type.lemma_supported();
        self.tls_cipher_suites.lemma_supported();
        self.prefix.lemma_supported();
        self.proxy_allowed.lemma_supported();
        self.client_ip_proxy_header.lemma_supported();
        self.client_ip_header_depth.lemma_supported();
        self.disable_www_auth_header.lemma_supported();
    }

    fn to_value(&self) -> (v: Value) {
        let mut fields: Vec<Field> = Vec::new();
        record_push(&mut fields, "port", self.port.to_value());
        record_push(&mut fields, "address", self.address.to_value());
        record_push(&mut fields, "enable_https", self.enable_https.to_value());
        record_push(&mut fields, "certificate_file", self.certificate_file.to_value());
        record_push(&mut fields, "certificate_key_file", self.certificate_key_file.to_value());
        record_push(&mut fields, "min_tls_version", self.min_tls_version.to_value());
        record_push(&mut fields, "client_auth_type", self.client_auth_type.to_value());
        record_push(&mut fields, "tls_cipher_suites", self.tls_cipher_suites.to_value());
        record_push(&mut fields, "prefix", self.prefix.to_value());
        record_push(&mut fields, "proxy_allowed", self.proxy_allowed.to_value());
        record_push(&mut fields, "client_ip_proxy_header", self.client_ip_proxy_header.to_value());
        record_push(&mut fields, "client_ip_header_depth", self.client_ip_header_depth.to_value());
        record_push(&mut fields, "disable_www_auth_header", self.disable_www_auth_header.to_value());
        Value::Record(fields)
    }
}

/// Cross-origin resource sharing for WebDAV.
#[derive(Debug, Clone, PartialEq, Default)]
pub struct Cors {
    pub enabled: Option<bool>,
    pub allowed_origins: Option<Vec<String>>,
    pub allowed_methods: Option<Vec<String>>,
    pub allowed_headers: Option<Vec<String>>,
    pub exposed_headers: Option<Vec<String>>,
    pub allow_credentials: Option<bool>,
    pub max_age: Option<i64>,
    pub options_passthrough: Option<bool>,
    pub options_success_status: Option<i64>,
    pub allow_private_network: Option<bool>,
}

impl ToValue for Cors {
    open spec fn value_view(&self) -> ValueView {
        ValueView::Record(
            Seq::empty()
                .push(FieldView { name: "enabled"@, value: self.enabled.value_view() })
                .push(FieldView { name: "allowed_origins"@, value: self.allowed_origins.value_view() })
                .push(FieldView { name: "allowed_methods"@, value: self.allowed_methods.value_view() })
                .push(FieldView { name: "allowed_headers"@, value: self.allowed_headers.value_view() })
                .push(FieldView { name: "exposed_headers"@, value: self.exposed_headers.value_view() })
                .push(FieldView { name: "allow_credentials"@, value: self.allow_credentials.value_view() })
                .push(FieldView { name: "max_age"@, value: self.max_age.value_view() })
                .push(FieldView { name: "options_passthrough"@, value: self.options_passthrough.value_view() })
                .push(FieldView { name: "options_success_status"@, value: self.options_success_status.value_view() })
                .push(FieldView { name: "allow_private_network"@, value: self.allow_private_network.value_view() }),
        )
    }

    proof fn lemma_supported(&self) {
        self.enabled.lemma_supported();
        self.allowed_origins.lemma_supported();
        self.allowed_methods.lemma_supported();
        self.allowed_headers.lemma_supported();
        self.exposed_headers.lemma_supported();
        self.allow_credentials.lemma_supported();
        self.max_age.lemma_supported();
        self.options_passthrough.lemma_supported();
        self.options_success_status.lemma_supported();
        self.allow_private_network.lemma_supported();
    }

    fn to_value(&self) -> (v: Value) {
        let mut fields: Vec<Field> = Vec::new();
        record_push(&mut fields, "enabled", self.enabled.to_value());
        record_push(&mut fields, "allowed_origins", self.allowed_origins.to_value());
        record_push(&mut fields, "allowed_methods", self.allowed_methods.to_value());
        record_push(&mut fields, "allowed_headers", self.allowed_headers.to_value());
        record_push(&mut fields, "exposed_headers", self.exposed_headers.to_value());
        record_push(&mut fields, "allow_credentials", self.allow_credentials.to_value());
        record_push(&mut fields, "max_age", self.max_age.to_value());
        record_push(&mut fields, "options_passthrough", self.options_passthrough.to_value());
        record_push(&mut fields, "options_success_status", self.options_success_status.to_value());
        record_push(&mut fields, "allow_private_network", self.allow_private_network.to_value());
        Value::Record(fields)
    }
}

/// The caches of the WebDAV server.
#[derive(Debug, Clone, PartialEq, Default)]
pub struct Cache {
    pub users: Option<Users>,
    pub mime_types: Option<MimeTypes>,
}

impl ToValue for Cache {
    open spec fn value_view(&self) -> ValueView {
        ValueView::Record(
            Seq::empty()
                .push(FieldView { name: "users"@, value: self.users.value_view() })
                .push(FieldView { name: "mime_types"@, value: self.mime_types.value_view() }),
        )
    }

    proof fn lemma_supported(&self) {
        self.users.lemma_supported();
        self.mime_types.lemma_supported();
    }

    fn to_value(&self) -> (v: Value) {
        let mut fields: Vec<Field> = Vec::new();
        record_push(&mut fields, "users", self.users.to_value());
        record_push(&mut fields, "mime_types", self.mime_types.to_value());
        Value::Record(fields)
    }
}

/// The cache of authenticated users.
#[derive(Debug, Clone, PartialEq, Default)]
pub struct Users {
    pub expiration_time: Option<i64>,
    pub max_size: Option<i64>,
}

impl ToValue for Users {
    open spec fn value_view(&self) -> ValueView {
        ValueView::Record(
            Seq::empty()
                .push(FieldView { name: "expiration_time"@, value: self.expiration_time.value_view() })
                .push(FieldView { name: "max_size"@, value: self.max_size.value_view() }),
        )
    }

    proof fn lemma_supported(&self) {
        self.expiration_time.lemma_supported();
        self.max_size.lemma_supported();
    }

    fn to_value(&self) -> (v: Value) {
        let mut fields: Vec<Field> = Vec::new();
        record_push(&mut fields, "expiration_time", self.expiration_time.to_value());
        record_push(&mut fields, "max_size", self.max_size.to_value());
        Value::Record(fields)
    }
}

/// The cache of MIME types.
#[derive(Debug, Clone, PartialEq, Default)]
pub struct MimeTypes {
    pub enabled: Option<bool>,
    pub max_size: Option<i64>,
    pub custom_mappings: Option<Vec<MimeTypesCustomMapping>>,
}

impl ToValue for MimeTypes {
    open spec fn value_view(&self) -> ValueView {
        ValueView::Record(
            Seq::empty()
                .push(FieldView { name: "enabled"@, value: self.enabled.value_view() })
                .push(FieldView { name: "max_size"@, value: self.max_size.value_view() })
                .push(FieldView { name: "custom_mappings"@, value: self.custom_mappings.value_view() }),
        )
    }

    proof fn lemma_supported(&self) {
        self.enabled.lemma_supported();
        self.max_size.lemma_supported();
        self.custom_mappings.lemma_supported();
    }

    fn to_value(&self) -> (v: Value) {
        let mut fields: Vec<Field> = Vec::new();
        record_push(&mut fields, "enabled", self.enabled.to_value());
        record_push(&mut fields, "max_size", self.max_size.to_value());
        record_push(&mut fields, "custom_mappings", self.custom_mappings.to_value());
        Value::Record(fields)
    }
}

/// A MIME type for a file extension.
#[derive(Debug, Clone, PartialEq, Default)]
pub struct MimeTypesCustomMapping {
    pub ext: String,
    pub mime: String,
}

impl ToValue for MimeTypesCustomMapping {
    open spec fn value_view(&self) -> ValueView {
        ValueView::Record(
            Seq::empty()
                .push(FieldView { name: "ext"@, value: self.ext.value_view() })
                .push(FieldView { name: "mime"@, value: self.mime.value_view() }),
        )
    }

    proof fn lemma_supported(&self) {
        self.ext.lemma_supported();
        self.mime.lemma_supported();
    }

    fn to_value(&self) -> (v: Value) {
        let mut fields: Vec<Field> = Vec::new();
        record_push(&mut fields, "ext", self.ext.to_value());
        record_push(&mut fields, "mime", self.mime.to_value());
        Value::Record(fields)
    }
}

/// Where users, folders and administrators are stored.
#[derive(Debug, Clone, PartialEq, Default)]
pub struct DataProvider {
    pub driver: Option<String>,
    pub name: Option<String>,
    pub host: Option<String>,
    pub port: Option<i64>,
    pub username: Option<String>,
    pub password: Option<String>,
    pub sslmode: Option<i64>,
    pub disable_sni: Option<bool>,
    pub target_session_attrs: Option<String>,
    pub root_cert: Option<String>,
    pub client_cert: Option<String>,
    pub client_key: Option<String>,
    pub connection_string: Option<String>,
    pub sql_tables_prefix: Option<String>,
    pub track_quota: Option<i64>,
    pub delayed_quota_update: Option<i64>,
    pub pool_size: Option<i64>,
    pub users_base_dir: Option<String>,
    pub actions: Option<DataProviderActions>,
    pub external_auth_hook: Option<String>,
    pub external_auth_scope: Option<i64>,
    pub pre_login_hook: Option<String>,
    pub post_login_hook: Option<String>,
    pub post_login_scope: Option<i64>,
    pub check_password_hook: Option<String>,
    pub check_password_scope: Option<i64>,
    pub password_hashing: Option<PasswordHashing>,
    pub password_validation: Option<PasswordValidation>,
    pub password_caching: Option<bool>,
    pub update_mode: Option<i64>,
    pub create_default_admin: Option<bool>,
    pub naming_rules: Option<i64>,
    pub is_shared: Option<i64>,
    pub node: Option<Node>,
    pub backups_path: Option<String>,
}

impl ToValue for DataProvider {
    open spec fn value_view(&self) -> ValueView {
        ValueView::Record(
            Seq::empty()
                .push(FieldView { name: "driver"@, value: self.driver.value_view() })
                .push(FieldView { name: "name"@, value: self.name.value_view() })
                .push(FieldView { name: "host"@, value: self.host.value_view() })
                .push(FieldView { name: "port"@, value: self.port.value_view() })
                .push(FieldView { name: "username"@, value: self.username.value_view() })
                .push(FieldView { name: "password"@, value: self.password.value_view() })
                .push(FieldView { name: "sslmode"@, value: self.sslmode.value_view() })
                .push(FieldView { name: "disable_sni"@, value: self.disable_sni.value_view() })
                .push(FieldView { name: "target_session_attrs"@, value: self.target_session_attrs.value_view() })
                .push(FieldView { name: "root_cert"@, value: self.root_cert.value_view() })
                .push(FieldView { name: "client_cert"@, value: self.client_cert.value_view() })
                .push(FieldView { name: "client_key"@, value: self.client_key.value_view() })
                .push(FieldView { name: "connection_string"@, value: self.connection_string.value_view() })
                .push(FieldView { name: "sql_tables_prefix"@, value: self.sql_tables_prefix.value_view() })
                .push(FieldView { name: "track_quota"@, value: self.track_quota.value_view() })
                .push(FieldView { name: "delayed_quota_update"@, value: self.delayed_quota_update.value_view() })
                .push(FieldView { name: "pool_size"@, value: self.pool_size.value_view() })
                .push(FieldView { name: "users_base_dir"@, value: self.users_base_dir.value_view() })
                .push(FieldView { name: "actions"@, value: self.actions.value_view() })
                .push(FieldView { name: "external_auth_hook"@, value: self.external_auth_hook.value_view() })
                .push(FieldView { name: "external_auth_scope"@, value: self.external_auth_scope.value_view() })
                .push(FieldView { name: "pre_login_hook"@, value: self.pre_login_hook.value_view() })
                .push(FieldView { name: "post_login_hook"@, value: self.post_login_hook.value_view() })
                .push(FieldView { name: "post_login_scope"@, value: self.post_login_scope.value_view() })
                .push(FieldView { name: "check_password_hook"@, value: self.check_password_hook.value_view() })
                .push(FieldView { name: "check_password_scope"@, value: self.check_password_scope.value_view() })
                .push(FieldView { name: "password_hashing"@, value: self.password_hashing.value_view() })
                .push(FieldView { name: "password_validation"@, value: self.password_validation.value_view() })
                .push(FieldView { name: "password_caching"@, value: self.password_caching.value_view() })
                .push(FieldView { name: "update_mode"@, value: self.update_mode.value_view() })
                .push(FieldView { name: "create_default_admin"@, value: self.create_default_admin.value_view() })
                .push(FieldView { name: "naming_rules"@, value: self.naming_rules.value_view() })
                .push(FieldView { name: "is_shared"@, value: self.is_shared.value_view() })
                .push(FieldView { name: "node"@, value: self.node.value_view() })
                .push(FieldView { name: "backups_path"@, value: self.backups_path.value_view() }),
        )
    }

    proof fn lemma_supported(&self) {
        self.driver.lemma_supported();
        self.name.lemma_supported();
        self.host.lemma_supported();
        self.port.lemma_supported();
        self.username.lemma_supported();
        self.password.lemma_supported();
        self.sslmode.lemma_supported();
        self.disable_sni.lemma_supported();
        self.target_session_attrs.lemma_supported();
        self.root_cert.lemma_supported();
        self.client_cert.lemma_supported();
        self.client_key.lemma_supported();
        self.connection_string.lemma_supported();
        self.sql_tables_prefix.lemma_supported();
        self.track_quota.lemma_supported();
        self.delayed_quota_update.lemma_supported();
        self.pool_size.lemma_supported();
        self.users_base_dir.lemma_supported();
        self.actions.lemma_supported();
        self.external_auth_hook.lemma_supported();
        self.external_auth_scope.lemma_supported();
        self.pre_login_hook.lemma_supported();
        self.post_login_hook.lemma_supported();
        self.post_login_scope.lemma_supported();
        self.check_password_hook.lemma_supported();
        self.check_password_scope.lemma_supported();
        self.password_hashing.lemma_supported();
        self.password_validation.lemma_supported();
        self.password_caching.lemma_supported();
        self.update_mode.lemma_supported();
        self.create_default_admin.lemma_supported();
        self.naming_rules.lemma_supported();
        self.is_shared.lemma_supported();
        self.node.lemma_supported();
        self.backups_path.lemma_supported();
    }

    fn to_value(&self) -> (v: Value) {
        let mut fields: Vec<Field> = Vec::new();
        record_push(&mut fields, "driver", self.driver.to_value());
        record_push(&mut fields, "name", self.name.to_value());
        record_push(&mut fields, "host", self.host.to_value());
        record_push(&mut fields, "port", self.port.to_value());
        record_push(&mut fields, "username", self.username.to_value());
        record_push(&mut fields, "password", self.password.to_value());
        record_push(&mut fields, "sslmode", self.sslmode.to_value());
        record_push(&mut fields, "disable_sni", self.disable_sni.to_value());
        record_push(&mut fields, "target_session_attrs", self.target_session_attrs.to_value());
        record_push(&mut fields, "root_cert", self.root_cert.to_value());
        record_push(&mut fields, "client_cert", self.client_cert.to_value());
        record_push(&mut fields, "client_key", self.client_key.to_value());
        record_push(&mut fields, "connection_string", self.connection_string.to_value());
        record_push(&mut fields, "sql_tables_prefix", self.sql_tables_prefix.to_value());
        record_push(&mut fields, "track_quota", self.track_quota.to_value());
        record_push(&mut fields, "delayed_quota_update", self.delayed_quota_update.to_value());
        record_push(&mut fields, "pool_size", self.pool_size.to_value());
        record_push(&mut fields, "users_base_dir", self.users_base_dir.to_value());
        record_push(&mut fields, "actions", self.actions.to_value());
        record_push(&mut fields, "external_auth_hook", self.external_auth_hook.to_value());
        record_push(&mut fields, "external_auth_scope", self.external_auth_scope.to_value());
        record_push(&mut fields, "pre_login_hook", self.pre_login_hook.to_value());
        record_push(&mut fields, "post_login_hook", self.post_login_hook.to_value());
        record_push(&mut fields, "post_login_scope", self.post_login_scope.to_value());
        record_push(&mut fields, "check_password_hook", self.check_password_hook.to_value());
        record_push(&mut fields, "check_password_scope", self.check_password_scope.to_value());
        record_push(&mut fields, "password_hashing", self.password_hashing.to_value());
        record_push(&mut fields, "password_validation", self.password_validation.to_value());
        record_push(&mut fields, "password_caching", self.password_caching.to_value());
        record_push(&mut fields, "update_mode", self.update_mode.to_value());
        record_push(&mut fields, "create_default_admin", self.create_default_admin.to_value());
        record_push(&mut fields, "naming_rules", self.naming_rules.to_value());
        record_push(&mut fields, "is_shared", self.is_shared.to_value());
        record_push(&mut fields, "node", self.node.to_value());
        record_push(&mut fields, "backups_path", self.backups_path.to_value());
        Value::Record(fields)
    }
}

/// A change to a provider object that runs the hook.
#[derive(Debug, Clone, Copy, PartialEq, Eq)]
pub enum DataProviderActionsExecuteOn {
    Add,
    Update,
    Delete,
}

impl DataProviderActionsExecuteOn {
    /// The tag under which the variant is written.
    pub open spec fn tag(&self) -> Seq<char> {
        match self {
            DataProviderActionsExecuteOn::Add => "add"@,
            DataProviderActionsExecuteOn::Update => "update"@,
            DataProviderActionsExecuteOn::Delete => "delete"@,
        }
    }
}

impl ToValue for DataProviderActionsExecuteOn {
    open spec fn value_view(&self) -> ValueView {
        ValueView::UnitVariant(self.tag())
    }

    proof fn lemma_supported(&self) {
    }

    fn to_value(&self) -> (v: Value) {
        match self {
            DataProviderActionsExecuteOn::Add => unit_variant("add"),
            DataProviderActionsExecuteOn::Update => unit_variant("update"),
            DataProviderActionsExecuteOn::Delete => unit_variant("delete"),
        }
    }
}

/// A kind of provider object that the hook runs for.
#[derive(Debug, Clone, Copy, PartialEq, Eq)]
pub enum DataProviderActionsExecuteFor {
    User,
    Folder,
    Group,
    Admin,
    ApiKey,
    Share,
    EventAction,
    EventRule,
}

impl DataProviderActionsExecuteFor {
    /// The tag under which the variant is written.
    pub open spec fn tag(&self) -> Seq<char> {
        match self {
            DataProviderActionsExecuteFor::User => "user"@,
            DataProviderActionsExecuteFor::Folder => "folder"@,
            DataProviderActionsExecuteFor::Group => "group"@,
            DataProviderActionsExecuteFor::Admin => "admin"@,
            DataProviderActionsExecuteFor::ApiKey => "api_key"@,
            DataProviderActionsExecuteFor::Share => "share"@,
            DataProviderActionsExecuteFor::EventAction => "event_action"@,
            DataProviderActionsExecuteFor::EventRule => "event_rule"@,
        }
    }
}

impl ToValue for DataProviderActionsExecuteFor {
    open spec fn value_view(&self) -> ValueView {
        ValueView::UnitVariant(self.tag())
    }

    proof fn lemma_supported(&self) {
    }

    fn to_value(&self) -> (v: Value) {
        match self {
            DataProviderActionsExecuteFor::User => unit_variant("user"),
            DataProviderActionsExecuteFor::Folder => unit_variant("folder"),
            DataProviderActionsExecuteFor::Group => unit_variant("group"),
            DataProviderActionsExecuteFor::Admin => unit_variant("admin"),
            DataProviderActionsExecuteFor::ApiKey => unit_variant("api_key"),
            DataProviderActionsExecuteFor::Share => unit_variant("share"),
            DataProviderActionsExecuteFor::EventAction => unit_variant("event_action"),
            DataProviderActionsExecuteFor::EventRule => unit_variant("event_rule"),
        }
    }
}

/// Hooks run on changes to provider objects.
#[derive(Debug, Clone, PartialEq, Default)]
pub struct DataProviderActions {
    pub execute_on: Option<Vec<DataProviderActionsExecuteOn>>,
    pub execute_for: Option<Vec<DataProviderActionsExecuteFor>>,
    pub hook: Option<String>,
}

impl ToValue for DataProviderActions {
    open spec fn value_view(&self) -> ValueView {
        ValueView::Record(
            Seq::empty()
                .push(FieldView { name: "execute_on"@, value: self.execute_on.value_view() })
                .push(FieldView { name: "execute_for"@, value: self.execute_for.value_view() })
                .push(FieldView { name: "hook"@, value: self.hook.value_view() }),
        )
    }

    proof fn lemma_supported(&self) {
        self.execute_on.lemma_supported();
        self.execute_for.lemma_supported();
        self.hook.lemma_supported();
    }

    fn to_value(&self) -> (v: Value) {
        let mut fields: Vec<Field> = Vec::new();
        record_push(&mut fields, "execute_on", self.execute_on.to_value());
        record_push(&mut fields, "execute_for", self.execute_for.to_value());
        record_push(&mut fields, "hook", self.hook.to_value());
        Value::Record(fields)
    }
}

/// How passwords are hashed.
#[derive(Debug, Clone, PartialEq, Default)]
pub struct PasswordHashing {
    pub bcrypt_options: Option<BcryptOptions>,
    pub argon2_options: Option<Argon2Options>,
    pub algo: Option<String>,
}

impl ToValue for PasswordHashing {
    open spec fn value_view(&self) -> ValueView {
        ValueView::Record(
            Seq::empty()
                .push(FieldView { name: "bcrypt_options"@, value: self.bcrypt_options.value_view() })
                .push(FieldView { name: "argon2_options"@, value: self.argon2_options.value_view() })
                .push(FieldView { name: "algo"@, value: self.algo.value_view() }),
        )
    }

    proof fn lemma_supported(&self) {
        self.bcrypt_options.lemma_supported();
        self.argon2_options.lemma_supported();
        self.algo.lemma_supported();
    }

    fn to_value(&self) -> (v: Value) {
        let mut fields: Vec<Field> = Vec::new();
        record_push(&mut fields, "bcrypt_options", self.bcrypt_options.to_value());
        record_push(&mut fields, "argon2_options", self.argon2_options.to_value());
        record_push(&mut fields, "algo", self.algo.to_value());
        Value::Record(fields)
    }
}

/// Options of the bcrypt hash.
#[derive(Debug, Clone, PartialEq, Default)]
pub struct BcryptOptions {
    pub cost: Option<i64>,
}

impl ToValue for BcryptOptions {
    open spec fn value_view(&self) -> ValueView {
        ValueView::Record(
            Seq::empty()
                .push(FieldView { name: "cost"@, value: self.cost.value_view() }),
        )
    }

    proof fn lemma_supported(&self) {
        self.cost.lemma_supported();
    }

    fn to_value(&self) -> (v: Value) {
        let mut fields: Vec<Field> = Vec::new();
        record_push(&mut fields, "cost", self.cost.to_value());
        Value::Record(fields)
    }
}

/// Options of the Argon2 hash.
#[derive(Debug, Clone, PartialEq, Default)]
pub struct Argon2Options {
    pub memory: Option<i64>,
    pub iterations: Option<i64>,
    pub parallelism: Option<i64>,
}

impl ToValue for Argon2Options {
    open spec fn value_view(&self) -> ValueView {
        ValueView::Record(
            Seq::empty()
                .push(FieldView { name: "memory"@, value: self.memory.value_view() })
                .push(FieldView { name: "iterations"@, value: self.iterations.value_view() })
                .push(FieldView { name: "parallelism"@, value: self.parallelism.value_view() }),
        )
    }

    proof fn lemma_supported(&self) {
        self.memory.lemma_supported();
        self.iterations.lemma_supported();
        self.parallelism.lemma_supported();
    }

    fn to_value(&self) -> (v: Value) {
        let mut fields: Vec<Field> = Vec::new();
        record_push(&mut fields, "memory", self.memory.to_value());
        record_push(&mut fields, "iterations", self.iterations.to_value());
        record_push(&mut fields, "parallelism", self.parallelism.to_value());
        Value::Record(fields)
    }
}

/// The strength required of passwords.
#[derive(Debug, Clone, PartialEq, Default)]
pub struct PasswordValidation {
    pub admins: Option<Admins>,
    pub users: Option<Users2>,
}

impl ToValue for PasswordValidation {
    open spec fn value_view(&self) -> ValueView {
        ValueView::Record(
            Seq::empty()
                .push(FieldView { name: "admins"@, value: self.admins.value_view() })
                .push(FieldView { name: "users"@, value: self.users.value_view() }),
        )
    }

    proof fn lemma_supported(&self) {
        self.admins.lemma_supported();
        self.users.lemma_supported();
    }

    fn to_value(&self) -> (v: Value) {
        let mut fields: Vec<Field> = Vec::new();
        record_push(&mut fields, "admins", self.admins.to_value());
        record_push(&mut fields, "users", self.users.to_value());
        Value::Record(fields)
    }
}

/// The strength required of administrator passwords.
#[derive(Debug, Clone, PartialEq, Default)]
pub struct Admins {
    pub min_entropy: Option<i64>,
}

impl ToValue for Admins {
    open spec fn value_view(&self) -> ValueView {
        ValueView::Record(
            Seq::empty()
                .push(FieldView { name: "min_entropy"@, value: self.min_entropy.value_view() }),
        )
    }

    proof fn lemma_supported(&self) {
        self.min_entropy.lemma_supported();
    }

    fn to_value(&self) -> (v: Value) {
        let mut fields: Vec<Field> = Vec::new();
        record_push(&mut fields, "min_entropy", self.min_entropy.to_value());
        Value::Record(fields)
    }
}

/// The strength required of user passwords.
#[derive(Debug, Clone, PartialEq, Default)]
pub struct Users2 {
    pub min_entropy: Option<i64>,
}

impl ToValue for Users2 {
    open spec fn value_view(&self) -> ValueView {
        ValueView::Record(
            Seq::empty()
                .push(FieldView { name: "min_entropy"@, value: self.min_entropy.value_view() }),
        )
    }

    proof fn lemma_supported(&self) {
        self.min_entropy.lemma_supported();
    }

    fn to_value(&self) -> (v: Value) {
        let mut fields: Vec<Field> = Vec::new();
        record_push(&mut fields, "min_entropy", self.min_entropy.to_value());
        Value::Record(fields)
    }
}

/// This instance as a node of a cluster.
#[derive(Debug, Clone, PartialEq, Default)]
pub struct Node {
    pub host: Option<String>,
    pub port: Option<i64>,
    pub proto: Option<String>,
}

impl ToValue for Node {
    open spec fn value_view(&self) -> ValueView {
        ValueView::Record(
            Seq::empty()
                .push(FieldView { name: "host"@, value: self.host.value_view() })
                .push(FieldView { name: "port"@, value: self.port.value_view() })
                .push(FieldView { name: "proto"@, value: self.proto.value_view() }),
        )
    }

    proof fn lemma_supported(&self) {
        self.host.lemma_supported();
        self.port.lemma_supported();
        self.proto.lemma_supported();
    }

    fn to_value(&self) -> (v: Value) {
        let mut fields: Vec<Field> = Vec::new();
        record_push(&mut fields, "host", self.host.to_value());
        record_push(&mut fields, "port", self.port.to_value());
        record_push(&mut fields, "proto", self.proto.to_value());
        Value::Record(fields)
    }
}

/// The HTTP server: REST API and web interfaces.
#[derive(Debug, Clone, PartialEq, Default)]
pub struct Httpd {
    pub bindings: Option<Vec<HttpdBinding>>,
    pub templates_path: Option<String>,
    pub static_files_path: Option<String>,
    pub openapi_path: Option<String>,
    pub web_root: Option<String>,
    pub certificate_file: Option<String>,
    pub certificate_key_file: Option<String>,
    pub ca_certificates: Option<Vec<String>>,
    pub ca_revocation_lists: Option<Vec<String>>,
    pub signing_passphrase: Option<String>,
    pub token_validation: Option<i64>,
    pub max_upload_file_size: Option<i64>,
    pub cors: Option<HttpdCors>,
    pub setup: Option<Setup>,
    pub hide_support_link: Option<bool>,
}

impl ToValue for Httpd {
    open spec fn value_view(&self) -> ValueView {
        ValueView::Record(
            Seq::empty()
                .push(FieldView { name: "bindings"@, value: self.bindings.value_view() })
                .push(FieldView { name: "templates_path"@, value: self.templates_path.value_view() })
                .push(FieldView { name: "static_files_path"@, value: self.static_files_path.value_view() })
                .push(FieldView { name: "openapi_path"@, value: self.openapi_path.value_view() })
                .push(FieldView { name: "web_root"@, value: self.web_root.value_view() })
                .push(FieldView { name: "certificate_file"@, value: self.certificate_file.value_view() })
                .push(FieldView { name: "certificate_key_file"@, value: self.certificate_key_file.value_view() })
                .push(FieldView { name: "ca_certificates"@, value: self.ca_certificates.value_view() })
                .push(FieldView { name: "ca_revocation_lists"@, value: self.ca_revocation_lists.value_view() })
                .push(FieldView { name: "signing_passphrase"@, value: self.signing_passphrase.value_view() })
                .push(FieldView { name: "token_validation"@, value: self.token_validation.value_view() })
                .push(FieldView { name: "max_upload_file_size"@, value: self.max_upload_file_size.value_view() })
                .push(FieldView { name: "cors"@, value: self.cors.value_view() })
                .push(FieldView { name: "setup"@, value: self.setup.value_view() })
                .push(FieldView { name: "hide_support_link"@, value: self.hide_support_link.value_view() }),
        )
    }

    proof fn lemma_supported(&self) {
        self.bindings.lemma_supported();
        self.templates_path.lemma_supported();
        self.static_files_path.lemma_supported();
        self.openapi_path.lemma_supported();
        self.web_root.lemma_supported();
        self.certificate_file.lemma_supported();
        self.certificate_key_file.lemma_supported();
        self.ca_certificates.lemma_supported();
        self.ca_revocation_lists.lemma_supported();
        self.signing_passphrase.lemma_supported();
        self.token_validation.lemma_supported();
        self.max_upload_file_size.lemma_supported();
        self.cors.lemma_supported();
        self.setup.lemma_supported();
        self.hide_support_link.lemma_supported();
    }

    fn to_value(&self) -> (v: Value) {
        let mut fields: Vec<Field> = Vec::new();
        record_push(&mut fields, "bindings", self.bindings.to_value());
        record_push(&mut fields, "templates_path", self.templates_path.to_value());
        record_push(&mut fields, "static_files_path", self.static_files_path.to_value());
        record_push(&mut fields, "openapi_path", self.openapi_path.to_value());
        record_push(&mut fields, "web_root", self.web_root.to_value());
        record_push(&mut fields, "certificate_file", self.certificate_file.to_value());
        record_push(&mut fields, "certificate_key_file", self.certificate_key_file.to_value());
        record_push(&mut fields, "ca_certificates", self.ca_certificates.to_value());
        record_push(&mut fields, "ca_revocation_lists", self.ca_revocation_lists.to_value());
        record_push(&mut fields, "signing_passphrase", self.signing_passphrase.to_value());
        record_push(&mut fields, "token_validation", self.token_validation.to_value());
        record_push(&mut fields, "max_upload_file_size", self.max_upload_file_size.to_value());
        record_push(&mut fields, "cors", self.cors.to_value());
        record_push(&mut fields, "setup", self.setup.to_value());
        record_push(&mut fields, "hide_support_link", self.hide_support_link.to_value());
        Value::Record(fields)
    }
}

/// One address and port the HTTP server listens on.
#[derive(Debug, Clone, PartialEq, Default)]
pub struct HttpdBinding {
    pub port: Option<i64>,
    pub address: Option<String>,
    pub enable_web_admin: Option<bool>,
    pub enable_web_client: Option<bool>,
    pub enable_rest_api: Option<bool>,
    pub enabled_login_methods: Option<i64>,
    pub enable_https: Option<bool>,
    pub certificate_file: Option<String>,
    pub certificate_key_file: Option<String>,
    pub min_tls_version: Option<i64>,
    pub client_auth_type: Option<i64>,
    pub tls_cipher_suites: Option<Vec<String>>,
    pub proxy_allowed: Option<Vec<String>>,
    pub client_ip_proxy_header: Option<String>,
    pub client_ip_header_depth: Option<i64>,
    pub hide_login_url: Option<i64>,
    pub render_openapi: Option<bool>,
    pub web_client_integrations: Option<Vec<HttpdBindingWebClientIntegration>>,
    pub oidc: Option<Oidc>,
    pub security: Option<Security>,
    pub branding: Option<Branding>,
}

impl ToValue for HttpdBinding {
    open spec fn value_view(&self) -> ValueView {
        ValueView::Record(
            Seq::empty()
                .push(FieldView { name: "port"@, value: self.port.value_view() })
                .push(FieldView { name: "address"@, value: self.address.value_view() })
                .push(FieldView { name: "enable_web_admin"@, value: self.enable_web_admin.value_view() })
                .push(FieldView { name: "enable_web_client"@, value: self.enable_web_client.value_view() })
                .push(FieldView { name: "enable_rest_api"@, value: self.enable_rest_api.value_view() })
                .push(FieldView { name: "enabled_login_methods"@, value: self.enabled_login_methods.value_view() })
                .push(FieldView { name: "enable_https"@, value: self.enable_https.value_view() })
                .push(FieldView { name: "certificate_file"@, value: self.certificate_file.value_view() })
                .push(FieldView { name: "certificate_key_file"@, value: self.certificate_key_file.value_view() })
                .push(FieldView { name: "min_tls_version"@, value: self.min_tls_version.value_view() })
                .push(FieldView { name: "client_auth_type"@, value: self.client_auth_type.value_view() })
                .push(FieldView { name: "tls_cipher_suites"@, value: self.tls_cipher_suites.value_view() })
                .push(FieldView { name: "proxy_allowed"@, value: self.proxy_allowed.value_view() })
                .push(FieldView { name: "client_ip_proxy_header"@, value: self.client_ip_proxy_header.value_view() })
                .push(FieldView { name: "client_ip_header_depth"@, value: self.client_ip_header_depth.value_view() })
                .push(FieldView { name: "hide_login_url"@, value: self.hide_login_url.value_view() })
                .push(FieldView { name: "render_openapi"@, value: self.render_openapi.value_view() })
                .push(FieldView { name: "web_client_integrations"@, value: self.web_client_integrations.value_view() })
                .push(FieldView { name: "oidc"@, value: self.oidc.value_view() })
                .push(FieldView { name: "security"@, value: self.security.value_view() })
                .push(FieldView { name: "branding"@, value: self.branding.value_view() }),
        )
    }

    proof fn lemma_supported(&self) {
        self.port.lemma_supported();
        self.address.lemma_supported();
        self.enable_web_admin.lemma_supported();
        self.enable_web_client.lemma_supported();
        self.enable_rest_api.lemma_supported();
        self.enabled_login_methods.lemma_supported();
        self.enable_https.lemma_supported();
        self.certificate_file.lemma_supported();
        self.certificate_key_file.lemma_supported();
        self.min_tls_version.lemma_supported();
        self.client_auth_type.lemma_supported();
        self.tls_cipher_suites.lemma_supported();
        self.proxy_allowed.lemma_supported();
        self.client_ip_proxy_header.lemma_supported();
        self.client_ip_header_depth.lemma_supported();
        self.hide_login_url.lemma_supported();
        self.render_openapi.lemma_supported();
        self.web_client_integrations.lemma_supported();
        self.oidc.lemma_supported();
        self.security.lemma_supported();
        self.branding.lemma_supported();
    }

    fn to_value(&self) -> (v: Value) {
        let mut fields: Vec<Field> = Vec::new();
        record_push(&mut fields, "port", self.port.to_value());
        record_push(&mut fields, "address", self.address.to_value());
        record_push(&mut fields, "enable_web_admin", self.enable_web_admin.to_value());
        record_push(&mut fields, "enable_web_client", self.enable_web_client.to_value());
        record_push(&mut fields, "enable_rest_api", self.enable_rest_api.to_value());
        record_push(&mut fields, "enabled_login_methods", self.enabled_login_methods.to_value());
        record_push(&mut fields, "enable_https", self.enable_https.to_value());
        record_push(&mut fields, "certificate_file", self.certificate_file.to_value());
        record_push(&mut fields, "certificate_key_file", self.certificate_key_file.to_value());
        record_push(&mut fields, "min_tls_version", self.min_tls_version.to_value());
        record_push(&mut fields, "client_auth_type", self.client_auth_type.to_value());
        record_push(&mut fields, "tls_cipher_suites", self.tls_cipher_suites.to_value());
        record_push(&mut fields, "proxy_allowed", self.proxy_allowed.to_value());
        record_push(&mut fields, "client_ip_proxy_header", self.client_ip_proxy_header.to_value());
        record_push(&mut fields, "client_ip_header_depth", self.client_ip_header_depth.to_value());
        record_push(&mut fields, "hide_login_url", self.hide_login_url.to_value());
        record_push(&mut fields, "render_openapi", self.render_openapi.to_value());
        record_push(&mut fields, "web_client_integrations", self.web_client_integrations.to_value());
        record_push(&mut fields, "oidc", self.oidc.to_value());
        record_push(&mut fields, "security", self.security.to_value());
        record_push(&mut fields, "branding", self.branding.to_value());
        Value::Record(fields)
    }
}

/// An external application that the web client opens files with.
#[derive(Debug, Clone, PartialEq, Default)]
pub struct HttpdBindingWebClientIntegration {
    pub file_extensions: Vec<String>,
    pub url: String,
}

impl ToValue for HttpdBindingWebClientIntegration {
    open spec fn value_view(&self) -> ValueView {
        ValueView::Record(
            Seq::empty()
                .push(FieldView { name: "file_extensions"@, value: self.file_extensions.value_view() })
                .push(FieldView { name: "url"@, value: self.url.value_view() }),
        )
    }

    proof fn lemma_supported(&self) {
        self.file_extensions.lemma_supported();
        self.url.lemma_supported();
    }

    fn to_value(&self) -> (v: Value) {
        let mut fields: Vec<Field> = Vec::new();
        record_push(&mut fields, "file_extensions", self.file_extensions.to_value());
        record_push(&mut fields, "url", self.url.to_value());
        Value::Record(fields)
    }
}

/// OpenID Connect sign-in.
#[derive(Debug, Clone, PartialEq, Default)]
pub struct Oidc {
    pub client_id: Option<String>,
    pub client_secret: Option<String>,
    pub config_url: Option<String>,
    pub redirect_base_url: Option<String>,
    pub scopes: Option<Vec<String>>,
    pub username_field: Option<String>,
    pub role_field: Option<String>,
    pub implicit_roles: Option<bool>,
    pub custom_fields: Option<Vec<String>>,
    pub insecure_skip_signature_check: Option<bool>,
    pub debug: Option<bool>,
}

impl ToValue for Oidc {
    open spec fn value_view(&self) -> ValueView {
        ValueView::Record(
            Seq::empty()
                .push(FieldView { name: "client_id"@, value: self.client_id.value_view() })
                .push(FieldView { name: "client_secret"@, value: self.client_secret.value_view() })
                .push(FieldView { name: "config_url"@, value: self.config_url.value_view() })
                .push(FieldView { name: "redirect_base_url"@, value: self.redirect_base_url.value_view() })
                .push(FieldView { name: "scopes"@, value: self.scopes.value_view() })
                .push(FieldView { name: "username_field"@, value: self.username_field.value_view() })
                .push(FieldView { name: "role_field"@, value: self.role_field.value_view() })
                .push(FieldView { name: "implicit_roles"@, value: self.implicit_roles.value_view() })
                .push(FieldView { name: "custom_fields"@, value: self.custom_fields.value_view() })
                .push(FieldView { name: "insecure_skip_signature_check"@, value: self.insecure_skip_signature_check.value_view() })
                .push(FieldView { name: "debug"@, value: self.debug.value_view() }),
        )
    }

    proof fn lemma_supported(&self) {
        self.client_id.lemma_supported();
        self.client_secret.lemma_supported();
        self.config_url.lemma_supported();
        self.redirect_base_url.lemma_supported();
        self.scopes.lemma_supported();
        self.username_field.lemma_supported();
        self.role_field.lemma_supported();
        self.implicit_roles.lemma_supported();
        self.custom_fields.lemma_supported();
        self.insecure_skip_signature_check.lemma_supported();
        self.debug.lemma_supported();
    }

    fn to_value(&self) -> (v: Value) {
        let mut fields: Vec<Field> = Vec::new();
        record_push(&mut fields, "client_id", self.client_id.to_value());
        record_push(&mut fields, "client_secret", self.client_secret.to_value());
        record_push(&mut fields, "config_url", self.config_url.to_value());
        record_push(&mut fields, "redirect_base_url", self.redirect_base_url.to_value());
        record_push(&mut fields, "scopes", self.scopes.to_value());
        record_push(&mut fields, "username_field", self.username_field.to_value());
        record_push(&mut fields, "role_field", self.role_field.to_value());
        record_push(&mut fields, "implicit_roles", self.implicit_roles.to_value());
        record_push(&mut fields, "custom_fields", self.custom_fields.to_value());
        record_push(&mut fields, "insecure_skip_signature_check", self.insecure_skip_signature_check.to_value());
        record_push(&mut fields, "debug", self.debug.to_value());
        Value::Record(fields)
    }
}

/// HTTP security headers and redirects.
#[derive(Debug, Clone, PartialEq, Default)]
pub struct Security {
    pub enabled: Option<bool>,
    pub allowed_hosts: Option<Vec<String>>,
    pub allowed_hosts_are_regex: Option<bool>,
    pub hosts_proxy_headers: Option<Vec<String>>,
    pub https_redirect: Option<bool>,
    pub https_host: Option<String>,
    pub https_proxy_headers: Option<Vec<SecurityHttpsProxyHeader>>,
    pub sts_seconds: Option<i64>,
    pub sts_include_subdomains: Option<bool>,
    pub sts_preload: Option<bool>,
    pub content_type_nosniff: Option<bool>,
    pub content_security_policy: Option<String>,
    pub permissions_policy: Option<String>,
    pub cross_origin_opener_policy: Option<String>,
    pub expect_ct_header: Option<String>,
}

impl ToValue for Security {
    open spec fn value_view(&self) -> ValueView {
        ValueView::Record(
            Seq::empty()
                .push(FieldView { name: "enabled"@, value: self.enabled.value_view() })
                .push(FieldView { name: "allowed_hosts"@, value: self.allowed_hosts.value_view() })
                .push(FieldView { name: "allowed_hosts_are_regex"@, value: self.allowed_hosts_are_regex.value_view() })
                .push(FieldView { name: "hosts_proxy_headers"@, value: self.hosts_proxy_headers.value_view() })
                .push(FieldView { name: "https_redirect"@, value: self.https_redirect.value_view() })
                .push(FieldView { name: "https_host"@, value: self.https_host.value_view() })
                .push(FieldView { name: "https_proxy_headers"@, value: self.https_proxy_headers.value_view() })
                .push(FieldView { name: "sts_seconds"@, value: self.sts_seconds.value_view() })
                .push(FieldView { name: "sts_include_subdomains"@, value: self.sts_include_subdomains.value_view() })
                .push(FieldView { name: "sts_preload"@, value: self.sts_preload.value_view() })
                .push(FieldView { name: "content_type_nosniff"@, value: self.content_type_nosniff.value_view() })
                .push(FieldView { name: "content_security_policy"@, value: self.content_security_policy.value_view() })
                .push(FieldView { name: "permissions_policy"@, value: self.permissions_policy.value_view() })
                .push(FieldView { name: "cross_origin_opener_policy"@, value: self.cross_origin_opener_policy.value_view() })
                .push(FieldView { name: "expect_ct_header"@, value: self.expect_ct_header.value_view() }),
        )
    }

    proof fn lemma_supported(&self) {
        self.enabled.lemma_supported();
        self.allowed_hosts.lemma_supported();
        self.allowed_hosts_are_regex.lemma_supported();
        self.hosts_proxy_headers.lemma_supported();
        self.https_redirect.lemma_supported();
        self.https_host.lemma_supported();
        self.https_proxy_headers.lemma_supported();
        self.sts_seconds.lemma_supported();
        self.sts_include_subdomains.lemma_supported();
        self.sts_preload.lemma_supported();
        self.content_type_nosniff.lemma_supported();
        self.content_security_policy.lemma_supported();
        self.permissions_policy.lemma_supported();
        self.cross_origin_opener_policy.lemma_supported();
        self.expect_ct_header.lemma_supported();
    }

    fn to_value(&self) -> (v: Value) {
        let mut fields: Vec<Field> = Vec::new();
        record_push(&mut fields, "enabled", self.enabled.to_value());
        record_push(&mut fields, "allowed_hosts", self.allowed_hosts.to_value());
        record_push(&mut fields, "allowed_hosts_are_regex", self.allowed_hosts_are_regex.to_value());
        record_push(&mut fields, "hosts_proxy_headers", self.hosts_proxy_headers.to_value());
        record_push(&mut fields, "https_redirect", self.https_redirect.to_value());
        record_push(&mut fields, "https_host", self.https_host.to_value());
        record_push(&mut fields, "https_proxy_headers", self.https_proxy_headers.to_value());
        record_push(&mut fields, "sts_seconds", self.sts_seconds.to_value());
        record_push(&mut fields, "sts_include_subdomains", self.sts_include_subdomains.to_value());
        record_push(&mut fields, "sts_preload", self.sts_preload.to_value());
        record_push(&mut fields, "content_type_nosniff", self.content_type_nosniff.to_value());
        record_push(&mut fields, "content_security_policy", self.content_security_policy.to_value());
        record_push(&mut fields, "permissions_policy", self.permissions_policy.to_value());
        record_push(&mut fields, "cross_origin_opener_policy", self.cross_origin_opener_policy.to_value());
        record_push(&mut fields, "expect_ct_header", self.expect_ct_header.to_value());
        Value::Record(fields)
    }
}

/// A header that marks a request as arrived over HTTPS.
#[derive(Debug, Clone, PartialEq, Default)]
pub struct SecurityHttpsProxyHeader {
    pub key: String,
    pub value: String,
}

impl ToValue for SecurityHttpsProxyHeader {
    open spec fn value_view(&self) -> ValueView {
        ValueView::Record(
            Seq::empty()
                .push(FieldView { name: "key"@, value: self.key.value_view() })
                .push(FieldView { name: "value"@, value: self.value.value_view() }),
        )
    }

    proof fn lemma_supported(&self) {
        self.key.lemma_supported();
        self.value.lemma_supported();
    }

    fn to_value(&self) -> (v: Value) {
        let mut fields: Vec<Field> = Vec::new();
        record_push(&mut fields, "key", self.key.to_value());
        record_push(&mut fields, "value", self.value.to_value());
        Value::Record(fields)
    }
}

/// Names and logos of the web interfaces.
#[derive(Debug, Clone, PartialEq, Default)]
pub struct Branding {
    pub web_admin: Option<WebAdmin>,
    pub web_client: Option<WebClient>,
}

impl ToValue for Branding {
    open spec fn value_view(&self) -> ValueView {
        ValueView::Record(
            Seq::empty()
                .push(FieldView { name: "web_admin"@, value: self.web_admin.value_view() })
                .push(FieldView { name: "web_client"@, value: self.web_client.value_view() }),
        )
    }

    proof fn lemma_supported(&self) {
        self.web_admin.lemma_supported();
        self.web_client.lemma_supported();
    }

    fn to_value(&self) -> (v: Value) {
        let mut fields: Vec<Field> = Vec::new();
        record_push(&mut fields, "web_admin", self.web_admin.to_value());
        record_push(&mut fields, "web_client", self.web_client.to_value());
        Value::Record(fields)
    }
}

/// Branding of the administration interface.
#[derive(Debug, Clone, PartialEq, Default)]
pub struct WebAdmin {
    pub name: Option<String>,
    pub short_name: Option<String>,
    pub favicon_path: Option<String>,
    pub logo_path: Option<String>,
    pub login_image_path: Option<String>,
    pub disclaimer_name: Option<String>,
    pub disclaimer_path: Option<String>,
    pub default_css: Option<String>,
    pub extra_css: Option<Vec<String>>,
}

impl ToValue for WebAdmin {
    open spec fn value_view(&self) -> ValueView {
        ValueView::Record(
            Seq::empty()
                .push(FieldView { name: "name"@, value: self.name.value_view() })
                .push(FieldView { name: "short_name"@, value: self.short_name.value_view() })
                .push(FieldView { name: "favicon_path"@, value: self.favicon_path.value_view() })
                .push(FieldView { name: "logo_path"@, value: self.logo_path.value_view() })
                .push(FieldView { name: "login_image_path"@, value: self.login_image_path.value_view() })
                .push(FieldView { name: "disclaimer_name"@, value: self.disclaimer_name.value_view() })
                .push(FieldView { name: "disclaimer_path"@, value: self.disclaimer_path.value_view() })
                .push(FieldView { name: "default_css"@, value: self.default_css.value_view() })
                .push(FieldView { name: "extra_css"@, value: self.extra_css.value_view() }),
        )
    }

    proof fn lemma_supported(&self) {
        self.name.lemma_supported();
        self.short_name.lemma_supported();
        self.favicon_path.lemma_supported();
        self.logo_path.lemma_supported();
        self.login_image_path.lemma_supported();
        self.disclaimer_name.lemma_supported();
        self.disclaimer_path.lemma_supported();
        self.default_css.lemma_supported();
        self.extra_css.lemma_supported();
    }

    fn to_value(&self) -> (v: Value) {
        let mut fields: Vec<Field> = Vec::new();
        record_push(&mut fields, "name", self.name.to_value());
        record_push(&mut fields, "short_name", self.short_name.to_value());
        record_push(&mut fields, "favicon_path", self.favicon_path.to_value());
        record_push(&mut fields, "logo_path", self.logo_path.to_value());
        record_push(&mut fields, "login_image_path", self.login_image_path.to_value());
        record_push(&mut fields, "disclaimer_name", self.disclaimer_name.to_value());
        record_push(&mut fields, "disclaimer_path", self.disclaimer_path.to_value());
        record_push(&mut fields, "default_css", self.default_css.to_value());
        record_push(&mut fields, "extra_css", self.extra_css.to_value());
        Value::Record(fields)
    }
}

/// Branding of the web client.
#[derive(Debug, Clone, PartialEq, Default)]
pub struct WebClient {
    pub name: Option<String>,
    pub short_name: Option<String>,
    pub favicon_path: Option<String>,
    pub logo_path: Option<String>,
    pub login_image_path: Option<String>,
    pub disclaimer_name: Option<String>,
    pub disclaimer_path: Option<String>,
    pub default_css: Option<String>,
    pub extra_css: Option<Vec<String>>,
}

impl ToValue for WebClient {
    open spec fn value_view(&self) -> ValueView {
        ValueView::Record(
            Seq::empty()
                .push(FieldView { name: "name"@, value: self.name.value_view() })
                .push(FieldView { name: "short_name"@, value: self.short_name.value_view() })
                .push(FieldView { name: "favicon_path"@, value: self.favicon_path.value_view() })
                .push(FieldView { name: "logo_path"@, value: self.logo_path.value_view() })
                .push(FieldView { name: "login_image_path"@, value: self.login_image_path.value_view() })
                .push(FieldView { name: "disclaimer_name"@, value: self.disclaimer_name.value_view() })
                .push(FieldView { name: "disclaimer_path"@, value: self.disclaimer_path.value_view() })
                .push(FieldView { name: "default_css"@, value: self.default_css.value_view() })
                .push(FieldView { name: "extra_css"@, value: self.extra_css.value_view() }),
        )
    }

    proof fn lemma_supported(&self) {
        self.name.lemma_supported();
        self.short_name.lemma_supported();
        self.favicon_path.lemma_supported();
        self.logo_path.lemma_supported();
        self.login_image_path.lemma_supported();
        self.disclaimer_name.lemma_supported();
        self.disclaimer_path.lemma_supported();
        self.default_css.lemma_supported();
        self.extra_css.lemma_supported();
    }

    fn to_value(&self) -> (v: Value) {
        let mut fields: Vec<Field> = Vec::new();
        record_push(&mut fields, "name", self.name.to_value());
        record_push(&mut fields, "short_name", self.short_name.to_value());
        record_push(&mut fields, "favicon_path", self.favicon_path.to_value());
        record_push(&mut fields, "logo_path", self.logo_path.to_value());
        record_push(&mut fields, "login_image_path", self.login_image_path.to_value());
        record_push(&mut fields, "disclaimer_name", self.disclaimer_name.to_value());
        record_push(&mut fields, "disclaimer_path", self.disclaimer_path.to_value());
        record_push(&mut fields, "default_css", self.default_css.to_value());
        record_push(&mut fields, "extra_css", self.extra_css.to_value());
        Value::Record(fields)
    }
}

/// Cross-origin resource sharing for the REST API.
#[derive(Debug, Clone, PartialEq, Default)]
pub struct HttpdCors {
    pub enabled: Option<bool>,
    pub allowed_origins: Option<Vec<String>>,
    pub allowed_methods: Option<Vec<String>>,
    pub allowed_headers: Option<Vec<String>>,
    pub exposed_headers: Option<Vec<String>>,
    pub allow_credentials: Option<bool>,
    pub max_age: Option<i64>,
    pub options_passthrough: Option<bool>,
    pub options_success_status: Option<i64>,
    pub allow_private_network: Option<bool>,
}

impl ToValue for HttpdCors {
    open spec fn value_view(&self) -> ValueView {
        ValueView::Record(
            Seq::empty()
                .push(FieldView { name: "enabled"@, value: self.enabled.value_view() })
                .push(FieldView { name: "allowed_origins"@, value: self.allowed_origins.value_view() })
                .push(FieldView { name: "allowed_methods"@, value: self.allowed_methods.value_view() })
                .push(FieldView { name: "allowed_headers"@, value: self.allowed_headers.value_view() })
                .push(FieldView { name: "exposed_headers"@, value: self.exposed_headers.value_view() })
                .push(FieldView { name: "allow_credentials"@, value: self.allow_credentials.value_view() })
                .push(FieldView { name: "max_age"@, value: self.max_age.value_view() })
                .push(FieldView { name: "options_passthrough"@, value: self.options_passthrough.value_view() })
                .push(FieldView { name: "options_success_status"@, value: self.options_success_status.value_view() })
                .push(FieldView { name: "allow_private_network"@, value: self.allow_private_network.value_view() }),
        )
    }

    proof fn lemma_supported(&self) {
        self.enabled.lemma_supported();
        self.allowed_origins.lemma_supported();
        self.allowed_methods.lemma_supported();
        self.allowed_headers.lemma_supported();
        self.exposed_headers.lemma_supported();
        self.allow_credentials.lemma_supported();
        self.max_age.lemma_supported();
        self.options_passthrough.lemma_supported();
        self.options_success_status.lemma_supported();
        self.allow_private_network.lemma_supported();
    }

    fn to_value(&self) -> (v: Value) {
        let mut fields: Vec<Field> = Vec::new();
        record_push(&mut fields, "enabled", self.enabled.to_value());
        record_push(&mut fields, "allowed_origins", self.allowed_origins.to_value());
        record_push(&mut fields, "allowed_methods", self.allowed_methods.to_value());
        record_push(&mut fields, "allowed_headers", self.allowed_headers.to_value());
        record_push(&mut fields, "exposed_headers", self.exposed_headers.to_value());
        record_push(&mut fields, "allow_credentials", self.allow_credentials.to_value());
        record_push(&mut fields, "max_age", self.max_age.to_value());
        record_push(&mut fields, "options_passthrough", self.options_passthrough.to_value());
        record_push(&mut fields, "options_success_status", self.options_success_status.to_value());
        record_push(&mut fields, "allow_private_network", self.allow_private_network.to_value());
        Value::Record(fields)
    }
}

/// The initial setup screen.
#[derive(Debug, Clone, PartialEq, Default)]
pub struct Setup {
    pub installation_code: Option<String>,
    pub installation_code_hint: Option<String>,
}

impl ToValue for Setup {
    open spec fn value_view(&self) -> ValueView {
        ValueView::Record(
            Seq::empty()
                .push(FieldView { name: "installation_code"@, value: self.installation_code.value_view() })
                .push(FieldView { name: "installation_code_hint"@, value: self.installation_code_hint.value_view() }),
        )
    }

    proof fn lemma_supported(&self) {
        self.installation_code.lemma_supported();
        self.installation_code_hint.lemma_supported();
    }

    fn to_value(&self) -> (v: Value) {
        let mut fields: Vec<Field> = Vec::new();
        record_push(&mut fields, "installation_code", self.installation_code.to_value());
        record_push(&mut fields, "installation_code_hint", self.installation_code_hint.to_value());
        Value::Record(fields)
    }
}

/// The metrics and profiling endpoint.
#[derive(Debug, Clone, PartialEq, Default)]
pub struct Telemetry {
    pub bind_port: Option<i64>,
    pub bind_address: Option<String>,
    pub enable_profiler: Option<bool>,
    pub auth_user_file: Option<String>,
    pub certificate_file: Option<String>,
    pub certificate_key_file: Option<String>,
    pub min_tls_version: Option<i64>,
    pub tls_cipher_suites: Option<Vec<String>>,
}

impl ToValue for Telemetry {
    open spec fn value_view(&self) -> ValueView {
        ValueView::Record(
            Seq::empty()
                .push(FieldView { name: "bind_port"@, value: self.bind_port.value_view() })
                .push(FieldView { name: "bind_address"@, value: self.bind_address.value_view() })
                .push(FieldView { name: "enable_profiler"@, value: self.enable_profiler.value_view() })
                .push(FieldView { name: "auth_user_file"@, value: self.auth_user_file.value_view() })
                .push(FieldView { name: "certificate_file"@, value: self.certificate_file.value_view() })
                .push(FieldView { name: "certificate_key_file"@, value: self.certificate_key_file.value_view() })
                .push(FieldView { name: "min_tls_version"@, value: self.min_tls_version.value_view() })
                .push(FieldView { name: "tls_cipher_suites"@, value: self.tls_cipher_suites.value_view() }),
        )
    }

    proof fn lemma_supported(&self) {
        self.bind_port.lemma_supported();
        self.bind_address.lemma_supported();
        self.enable_profiler.lemma_supported();
        self.auth_user_file.lemma_supported();
        self.certificate_file.lemma_supported();
        self.certificate_key_file.lemma_supported();
        self.min_tls_version.lemma_supported();
        self.tls_cipher_suites.lemma_supported();
    }

    fn to_value(&self) -> (v: Value) {
        let mut fields: Vec<Field> = Vec::new();
        record_push(&mut fields, "bind_port", self.bind_port.to_value());
        record_push(&mut fields, "bind_address", self.bind_address.to_value());
        record_push(&mut fields, "enable_profiler", self.enable_profiler.to_value());
        record_push(&mut fields, "auth_user_file", self.auth_user_file.to_value());
        record_push(&mut fields, "certificate_file", self.certificate_file.to_value());
        record_push(&mut fields, "certificate_key_file", self.certificate_key_file.to_value());
        record_push(&mut fields, "min_tls_version", self.min_tls_version.to_value());
        record_push(&mut fields, "tls_cipher_suites", self.tls_cipher_suites.to_value());
        Value::Record(fields)
    }
}

/// The HTTP client used for hooks.
#[derive(Debug, Clone, PartialEq, Default)]
pub struct HttpClient {
    pub timeout: Option<i64>,
    pub retry_wait_min: Option<i64>,
    pub retry_wait_max: Option<i64>,
    pub retry_max: Option<i64>,
    pub ca_certificates: Option<Vec<String>>,
    pub certificates: Option<Vec<HttpClientCertificate>>,
    pub skip_tls_verify: Option<bool>,
    pub headers: Option<Vec<HttpClientHeaders>>,
}

impl ToValue for HttpClient {
    open spec fn value_view(&self) -> ValueView {
        ValueView::Record(
            Seq::empty()
                .push(FieldView { name: "timeout"@, value: self.timeout.value_view() })
                .push(FieldView { name: "retry_wait_min"@, value: self.retry_wait_min.value_view() })
                .push(FieldView { name: "retry_wait_max"@, value: self.retry_wait_max.value_view() })
                .push(FieldView { name: "retry_max"@, value: self.retry_max.value_view() })
                .push(FieldView { name: "ca_certificates"@, value: self.ca_certificates.value_view() })
                .push(FieldView { name: "certificates"@, value: self.certificates.value_view() })
                .push(FieldView { name: "skip_tls_verify"@, value: self.skip_tls_verify.value_view() })
                .push(FieldView { name: "headers"@, value: self.headers.value_view() }),
        )
    }

    proof fn lemma_supported(&self) {
        self.timeout.lemma_supported();
        self.retry_wait_min.lemma_supported();
        self.retry_wait_max.lemma_supported();
        self.retry_max.lemma_supported();
        self.ca_certificates.lemma_supported();
        self.certificates.lemma_supported();
        self.skip_tls_verify.lemma_supported();
        self.headers.lemma_supported();
    }

    fn to_value(&self) -> (v: Value) {
        let mut fields: Vec<Field> = Vec::new();
        record_push(&mut fields, "timeout", self.timeout.to_value());
        record_push(&mut fields, "retry_wait_min", self.retry_wait_min.to_value());
        record_push(&mut fields, "retry_wait_max", self.retry_wait_max.to_value());
        record_push(&mut fields, "retry_max", self.retry_max.to_value());
        record_push(&mut fields, "ca_certificates", self.ca_certificates.to_value());
        record_push(&mut fields, "certificates", self.certificates.to_value());
        record_push(&mut fields, "skip_tls_verify", self.skip_tls_verify.to_value());
        record_push(&mut fields, "headers", self.headers.to_value());
        Value::Record(fields)
    }
}

/// A client certificate with its key.
#[derive(Debug, Clone, PartialEq, Default)]
pub struct HttpClientCertificate {
    pub cert: String,
    pub key: String,
}

impl ToValue for HttpClientCertificate {
    open spec fn value_view(&self) -> ValueView {
        ValueView::Record(
            Seq::empty()
                .push(FieldView { name: "cert"@, value: self.cert.value_view() })
                .push(FieldView { name: "key"@, value: self.key.value_view() }),
        )
    }

    proof fn lemma_supported(&self) {
        self.cert.lemma_supported();
        self.key.lemma_supported();
    }

    fn to_value(&self) -> (v: Value) {
        let mut fields: Vec<Field> = Vec::new();
        record_push(&mut fields, "cert", self.cert.to_value());
        record_push(&mut fields, "key", self.key.to_value());
        Value::Record(fields)
    }
}

/// A header added to hook requests.
#[derive(Debug, Clone, PartialEq, Default)]
pub struct HttpClientHeaders {
    pub key: String,
    pub value: String,
    pub url: Option<String>,
}

impl ToValue for HttpClientHeaders {
    open spec fn value_view(&self) -> ValueView {
        ValueView::Record(
            Seq::empty()
                .push(FieldView { name: "key"@, value: self.key.value_view() })
                .push(FieldView { name: "value"@, value: self.value.value_view() })
                .push(FieldView { name: "url"@, value: self.url.value_view() }),
        )
    }

    proof fn lemma_supported(&self) {
        self.key.lemma_supported();
        self.value.lemma_supported();
        self.url.lemma_supported();
    }

    fn to_value(&self) -> (v: Value) {
        let mut fields: Vec<Field> = Vec::new();
        record_push(&mut fields, "key", self.key.to_value());
        record_push(&mut fields, "value", self.value.to_value());
        record_push(&mut fields, "url", self.url.to_value());
        Value::Record(fields)
    }
}

/// External commands used for hooks.
#[derive(Debug, Clone, PartialEq, Default)]
pub struct Command {
    pub timeout: Option<i64>,
    pub env: Option<Vec<String>>,
    pub commands: Option<Vec<CommandCommand>>,
}

impl ToValue for Command {
    open spec fn value_view(&self) -> ValueView {
        ValueView::Record(
            Seq::empty()
                .push(FieldView { name: "timeout"@, value: self.timeout.value_view() })
                .push(FieldView { name: "env"@, value: self.env.value_view() })
                .push(FieldView { name: "commands"@, value: self.commands.value_view() }),
        )
    }

    proof fn lemma_supported(&self) {
        self.timeout.lemma_supported();
        self.env.lemma_supported();
        self.commands.lemma_supported();
    }

    fn to_value(&self) -> (v: Value) {
        let mut fields: Vec<Field> = Vec::new();
        record_push(&mut fields, "timeout", self.timeout.to_value());
        record_push(&mut fields, "env", self.env.to_value());
        record_push(&mut fields, "commands", self.commands.to_value());
        Value::Record(fields)
    }
}

/// Settings of one external command.
#[derive(Debug, Clone, PartialEq, Default)]
pub struct CommandCommand {
    pub path: String,
    pub timeout: Option<i64>,
    pub env: Option<Vec<String>>,
    pub args: Option<Vec<String>>,
    pub hook: Option<String>,
}

impl ToValue for CommandCommand {
    open spec fn value_view(&self) -> ValueView {
        ValueView::Record(
            Seq::empty()
                .push(FieldView { name: "path"@, value: self.path.value_view() })
                .push(FieldView { name: "timeout"@, value: self.timeout.value_view() })
                .push(FieldView { name: "env"@, value: self.env.value_view() })
                .push(FieldView { name: "args"@, value: self.args.value_view() })
                .push(FieldView { name: "hook"@, value: self.hook.value_view() }),
        )
    }

    proof fn lemma_supported(&self) {
        self.path.lemma_supported();
        self.timeout.lemma_supported();
        self.env.lemma_supported();
        self.args.lemma_supported();
        self.hook.lemma_supported();
    }

    fn to_value(&self) -> (v: Value) {
        let mut fields: Vec<Field> = Vec::new();
        record_push(&mut fields, "path", self.path.to_value());
        record_push(&mut fields, "timeout", self.timeout.to_value());
        record_push(&mut fields, "env", self.env.to_value());
        record_push(&mut fields, "args", self.args.to_value());
        record_push(&mut fields, "hook", self.hook.to_value());
        Value::Record(fields)
    }
}

/// The key management service.
#[derive(Debug, Clone, PartialEq, Default)]
pub struct Kms {
    pub secrets: Option<Secrets>,
}

impl ToValue for Kms {
    open spec fn value_view(&self) -> ValueView {
        ValueView::Record(
            Seq::empty()
                .push(FieldView { name: "secrets"@, value: self.secrets.value_view() }),
        )
    }

    proof fn lemma_supported(&self) {
        self.secrets.lemma_supported();
    }

    fn to_value(&self) -> (v: Value) {
        let mut fields: Vec<Field> = Vec::new();
        record_push(&mut fields, "secrets", self.secrets.to_value());
        Value::Record(fields)
    }
}

/// How secrets are encrypted at rest.
#[derive(Debug, Clone, PartialEq, Default)]
pub struct Secrets {
    pub url: Option<String>,
    pub master_key: Option<String>,
    pub master_key_path: Option<String>,
}

impl ToValue for Secrets {
    open spec fn value_view(&self) -> ValueView {
        ValueView::Record(
            Seq::empty()
                .push(FieldView { name: "url"@, value: self.url.value_view() })
                .push(FieldView { name: "master_key"@, value: self.master_key.value_view() })
                .push(FieldView { name: "master_key_path"@, value: self.master_key_path.value_view() }),
        )
    }

    proof fn lemma_supported(&self) {
        self.url.lemma_supported();
        self.master_key.lemma_supported();
        self.master_key_path.lemma_supported();
    }

    fn to_value(&self) -> (v: Value) {
        let mut fields: Vec<Field> = Vec::new();
        record_push(&mut fields, "url", self.url.to_value());
        record_push(&mut fields, "master_key", self.master_key.to_value());
        record_push(&mut fields, "master_key_path", self.master_key_path.to_value());
        Value::Record(fields)
    }
}

/// Multi-factor authentication.
#[derive(Debug, Clone, PartialEq, Default)]
pub struct Mfa {
    pub totp: Option<Vec<Totp>>,
}

impl ToValue for Mfa {
    open spec fn value_view(&self) -> ValueView {
        ValueView::Record(
            Seq::empty()
                .push(FieldView { name: "totp"@, value: self.totp.value_view() }),
        )
    }

    proof fn lemma_supported(&self) {
        self.totp.lemma_supported();
    }

    fn to_value(&self) -> (v: Value) {
        let mut fields: Vec<Field> = Vec::new();
        record_push(&mut fields, "totp", self.totp.to_value());
        Value::Record(fields)
    }
}

/// One time-based one-time-password configuration.
#[derive(Debug, Clone, PartialEq, Default)]
pub struct Totp {
    pub name: Option<String>,
    pub issuer: Option<String>,
    pub algo: Option<String>,
}

impl ToValue for Totp {
    open spec fn value_view(&self) -> ValueView {
        ValueView::Record(
            Seq::empty()
                .push(FieldView { name: "name"@, value: self.name.value_view() })
                .push(FieldView { name: "issuer"@, value: self.issuer.value_view() })
                .push(FieldView { name: "algo"@, value: self.algo.value_view() }),
        )
    }

    proof fn lemma_supported(&self) {
        self.name.lemma_supported();
        self.issuer.lemma_supported();
        self.algo.lemma_supported();
    }

    fn to_value(&self) -> (v: Value) {
        let mut fields: Vec<Field> = Vec::new();
        record_push(&mut fields, "name", self.name.to_value());
        record_push(&mut fields, "issuer", self.issuer.to_value());
        record_push(&mut fields, "algo", self.algo.to_value());
        Value::Record(fields)
    }
}

/// The mail server used for notifications.
#[derive(Debug, Clone, PartialEq, Default)]
pub struct Smtp {
    pub host: Option<String>,
    pub port: Option<i64>,
    pub from: Option<String>,
    pub user: Option<String>,
    pub password: Option<String>,
    pub auth_type: Option<i64>,
    pub encryption: Option<i64>,
    pub domain: Option<String>,
    pub templates_path: Option<String>,
}

impl ToValue for Smtp {
    open spec fn value_view(&self) -> ValueView {
        ValueView::Record(
            Seq::empty()
                .push(FieldView { name: "host"@, value: self.host.value_view() })
                .push(FieldView { name: "port"@, value: self.port.value_view() })
                .push(FieldView { name: "from"@, value: self.from.value_view() })
                .push(FieldView { name: "user"@, value: self.user.value_view() })
                .push(FieldView { name: "password"@, value: self.password.value_view() })
                .push(FieldView { name: "auth_type"@, value: self.auth_type.value_view() })
                .push(FieldView { name: "encryption"@, value: self.encryption.value_view() })
                .push(FieldView { name: "domain"@, value: self.domain.value_view() })
                .push(FieldView { name: "templates_path"@, value: self.templates_path.value_view() }),
        )
    }

    proof fn lemma_supported(&self) {
        self.host.lemma_supported();
        self.port.lemma_supported();
        self.from.lemma_supported();
        self.user.lemma_supported();
        self.password.lemma_supported();
        self.auth_type.lemma_supported();
        self.encryption.lemma_supported();
        self.domain.lemma_supported();
        self.templates_path.lemma_supported();
    }

    fn to_value(&self) -> (v: Value) {
        let mut fields: Vec<Field> = Vec::new();
        record_push(&mut fields, "host", self.host.to_value());
        record_push(&mut fields, "port", self.port.to_value());
        record_push(&mut fields, "from", self.from.to_value());
        record_push(&mut fields, "user", self.user.to_value());
        record_push(&mut fields, "password", self.password.to_value());
        record_push(&mut fields, "auth_type", self.auth_type.to_value());
        record_push(&mut fields, "encryption", self.encryption.to_value());
        record_push(&mut fields, "domain", self.domain.to_value());
        record_push(&mut fields, "templates_path", self.templates_path.to_value());
        Value::Record(fields)
    }
}

/// The whole configuration of a server instance, section by section.
#[derive(Debug, Clone, PartialEq, Default)]
pub struct SftpgoConfiguration {
    pub common: Option<Common>,
    pub acme: Option<Acme>,
    pub sftpd: Option<Sftpd>,
    pub ftpd: Option<Ftpd>,
    pub webdavd: Option<Webdavd>,
    pub data_provider: Option<DataProvider>,
    pub httpd: Option<Httpd>,
    pub telemetry: Option<Telemetry>,
    pub http: Option<HttpClient>,
    pub command: Option<Command>,
    pub kms: Option<Kms>,
    pub mfa: Option<Mfa>,
    pub smtp: Option<Smtp>,
}

impl ToValue for SftpgoConfiguration {
    open spec fn value_view(&self) -> ValueView {
        ValueView::Record(
            Seq::empty()
                .push(FieldView { name: "common"@, value: self.common.value_view() })
                .push(FieldView { name: "acme"@, value: self.acme.value_view() })
                .push(FieldView { name: "sftpd"@, value: self.sftpd.value_view() })
                .push(FieldView { name: "ftpd"@, value: self.ftpd.value_view() })
                .push(FieldView { name: "webdavd"@, value: self.webdavd.value_view() })
                .push(FieldView { name: "data_provider"@, value: self.data_provider.value_view() })
                .push(FieldView { name: "httpd"@, value: self.httpd.value_view() })
                .push(FieldView { name: "telemetry"@, value: self.telemetry.value_view() })
                .push(FieldView { name: "http"@, value: self.http.value_view() })
                .push(FieldView { name: "command"@, value: self.command.value_view() })
                .push(FieldView { name: "kms"@, value: self.kms.value_view() })
                .push(FieldView { name: "mfa"@, value: self.mfa.value_view() })
                .push(FieldView { name: "smtp"@, value: self.smtp.value_view() }),
        )
    }

    proof fn lemma_supported(&self) {
        self.common.lemma_supported();
        self.acme.lemma_supported();
        self.sftpd.lemma_supported();
        self.ftpd.lemma_supported();
        self.webdavd.lemma_supported();
        self.data_provider.lemma_supported();
        self.httpd.lemma_supported();
        self.telemetry.lemma_supported();
        self.http.lemma_supported();
        self.command.lemma_supported();
        self.kms.lemma_supported();
        self.mfa.lemma_supported();
        self.smtp.lemma_supported();
    }

    fn to_value(&self) -> (v: Value) {
        let mut fields: Vec<Field> = Vec::new();
        record_push(&mut fields, "common", self.common.to_value());
        record_push(&mut fields, "acme", self.acme.to_value());
        record_push(&mut fields, "sftpd", self.sftpd.to_value());
        record_push(&mut fields, "ftpd", self.ftpd.to_value());
        record_push(&mut fields, "webdavd", self.webdavd.to_value());
        record_push(&mut fields, "data_provider", self.data_provider.to_value());
        record_push(&mut fields, "httpd", self.httpd.to_value());
        record_push(&mut fields, "telemetry", self.telemetry.to_value());
        record_push(&mut fields, "http", self.http.to_value());
        record_push(&mut fields, "command", self.command.to_value());
        record_push(&mut fields, "kms", self.kms.to_value());
        record_push(&mut fields, "mfa", self.mfa.to_value());
        record_push(&mut fields, "smtp", self.smtp.to_value());
        Value::Record(fields)
    }
}

/// What the author of a server resource asks for.
#[derive(Debug, Clone, Default)]
pub struct SftpgoServerSpec {
    /// The configuration of the instance.
    pub configuration: Option<SftpgoConfiguration>,
    /// The number of replicas of the workload.
    pub replicas: Option<i32>,
    /// The container image; the default image where absent.
    pub image: Option<String>,
    /// Labels added to every rendered object.
    pub labels: Option<StringMap<String>>,
    /// The node selector of the pods, if any.
    pub node_selector: Option<StringMap<String>>,
}

/// A server resource as the cluster holds it.
#[derive(Debug, Clone, Default)]
pub struct SftpgoServer {
    pub metadata: ObjectMeta,
    pub spec: SftpgoServerSpec,
}

} // verus!

//! The pool of clients of the management API: one client per server,
//! and per server one authorized client per administrator. Also how a
//! server reference becomes the values to connect with.

use crate::client::admin_token::RefreshableAdminAuthContext;
use crate::client::client::{parse_url, text_result, url_parse, AuthorizedSftpgoClient, SftpgoClient};
use crate::crds::sftpgo_server_reference::{ConnectionOverride, ServerReference};
use crate::operator::reconciler::Error;
use crate::string_map::StringMap;
use crate::text::concat;
use vstd::prelude::*;
use vstd::string::StringExecFns;
use vstd::utf8::{decode_utf8, valid_utf8};

verus! {

/// A client with the credentials of one administrator.
pub type AuthorizedClient = AuthorizedSftpgoClient<RefreshableAdminAuthContext>;

/// The client of one server with the authorized clients that were made
/// for it, by the administrator's name.
#[derive(Debug)]
pub struct KnownSftpgoClient {
    pub client: SftpgoClient,
    pub authorized_clients: StringMap<AuthorizedClient>,
}

/// The model of a [`KnownSftpgoClient`].
pub struct KnownSftpgoClientView {
    pub base_url: Seq<char>,
    pub authorized_clients: Map<Seq<char>, AuthorizedClient>,
}

impl View for KnownSftpgoClient {
    type V = KnownSftpgoClientView;

    open spec fn view(&self) -> KnownSftpgoClientView {
        KnownSftpgoClientView {
            base_url: self.client.base_url@,
            authorized_clients: self.authorized_clients@,
        }
    }
}

impl KnownSftpgoClient {
    /// The client of the server at `url`, with no authorized client.
    pub fn new(url: String) -> (c: KnownSftpgoClient)
        ensures
            c.authorized_clients.wf(),
            c@ == (KnownSftpgoClientView { base_url: url@, authorized_clients: Map::empty() }),
    {
        KnownSftpgoClient { client: SftpgoClient::new(url), authorized_clients: StringMap::new() }
    }

    /// The authorized client of the administrator `username`, if one
    /// was made.
    pub fn get_authorized_client(&self, username: &str) -> (r: Option<&AuthorizedClient>)
        requires
            self.authorized_clients.wf(),
        ensures
            match r {
                Some(c) => self@.authorized_clients.contains_key(username@)
                    && self@.authorized_clients[username@] == *c,
                None => !self@.authorized_clients.contains_key(username@),
            },
    {
        self.authorized_clients.get(username)
    }

    /// Drops the authorized client of the administrator `username`,
    /// so that the next request obtains a new token.
    pub fn invalidate(&mut self, username: &str)
        requires
            old(self).authorized_clients.wf(),
        ensures
            final(self).authorized_clients.wf(),
            final(self)@.base_url == old(self)@.base_url,
            final(self)@.authorized_clients == old(self)@.authorized_clients.remove(username@),
    {
        let _ = self.authorized_clients.remove(username);
    }

    /// Keeps an authorized client for the administrator `username`,
    /// made from credentials with their first token.
    pub fn insert_authorized_client(&mut self, username: &str, context: RefreshableAdminAuthContext)
        requires
            old(self).authorized_clients.wf(),
        ensures
            final(self).authorized_clients.wf(),
            final(self)@.base_url == old(self)@.base_url,
            final(self)@.authorized_clients.dom() == old(self)@.authorized_clients.dom().insert(
                username@,
            ),
            final(self)@.authorized_clients[username@].auth_context == context,
            final(self)@.authorized_clients[username@].client.base_url@ == old(self)@.base_url,
            forall|other: Seq<char>|
                other != username@ && old(self)@.authorized_clients.contains_key(other)
                    ==> #[trigger] final(self)@.authorized_clients[other] == old(
                    self,
                )@.authorized_clients[other],
    {
        let new_client = self.client.with_auth_context(context);
        self.authorized_clients.insert(username.to_owned(), new_client);
    }
}

/// The pool: the known clients by the identifier of the Secret that
/// holds their server's credentials.
#[derive(Debug)]
pub struct SftpgoMultiClient {
    pub clients: StringMap<KnownSftpgoClient>,
}

impl SftpgoMultiClient {
    /// No key occurs twice, in the pool or in any of its clients.
    pub open spec fn wf(&self) -> bool {
        &&& self.clients.wf()
        &&& forall|id: Seq<char>|
            self.clients@.contains_key(id) ==> (#[trigger] self.clients@[id]).authorized_clients.wf()
    }

    /// The model of the pool: each known client by its identifier.
    pub open spec fn view(&self) -> Map<Seq<char>, KnownSftpgoClientView> {
        self.clients@.map_values(|c: KnownSftpgoClient| c@)
    }

    /// The empty pool.
    pub fn new() -> (pool: Self)
        ensures
            pool.wf(),
            pool@ == Map::<Seq<char>, KnownSftpgoClientView>::empty(),
    {
        let pool = Self { clients: StringMap::new() };
        proof {
            assert(pool@ =~= Map::<Seq<char>, KnownSftpgoClientView>::empty());
        }
        pool
    }

    /// Makes sure that the pool knows a client for `id`: a known client
    /// stays as it is, whatever `url`; else a client of the server at
    /// `url` is added, with no authorized client.
    pub fn get_client(&mut self, id: &str, url: String)
        requires
            old(self).wf(),
        ensures
            final(self).wf(),
            old(self)@.contains_key(id@) ==> final(self)@ == old(self)@,
            !old(self)@.contains_key(id@) ==> final(self)@ == old(self)@.insert(
                id@,
                KnownSftpgoClientView { base_url: url@, authorized_clients: Map::empty() },
            ),
    {
        if self.clients.contains_key(id) {
            return ;
        }
        let new_client = KnownSftpgoClient::new(url);
        let ghost before = *self;
        self.clients.insert(id.to_owned(), new_client);
        proof {
            assert(self@ =~= before@.insert(
                id@,
                KnownSftpgoClientView { base_url: url@, authorized_clients: Map::empty() },
            ));
            assert forall|other: Seq<char>| self.clients@.contains_key(other) implies (
            #[trigger] self.clients@[other]).authorized_clients.wf() by {
                if other != id@ {
                    assert(before.clients@.contains_key(other));
                }
            }
        }
    }

    /// The authorized client of the administrator `username` for the
    /// server `id`, if the pool holds one.
    pub fn get_authorized_client(&self, id: &str, username: &str) -> (r: Option<&AuthorizedClient>)
        requires
            self.wf(),
        ensures
            match r {
                Some(c) => self@.contains_key(id@) && self@[id@].authorized_clients.contains_key(
                    username@,
                ) && self@[id@].authorized_clients[username@] == *c,
                None => !self@.contains_key(id@) || !self@[id@].authorized_clients.contains_key(
                    username@,
                ),
            },
    {
        match self.clients.get(id) {
            Some(known) => known.get_authorized_client(username),
            None => None,
        }
    }

    /// Drops the authorized client of the administrator `username` for
    /// the server `id`, so that the next request obtains a new token.
    /// Everything else in the pool stays as it is.
    pub fn invalidate(&mut self, id: &str, username: &str)
        requires
            old(self).wf(),
        ensures
            final(self).wf(),
            final(self)@.dom() == old(self)@.dom(),
            forall|other: Seq<char>|
                other != id@ && old(self)@.contains_key(other) ==> #[trigger] final(self)@[other]
                    == old(self)@[other],
            old(self)@.contains_key(id@) ==> final(self)@[id@] == (KnownSftpgoClientView {
                base_url: old(self)@[id@].base_url,
                authorized_clients: old(self)@[id@].authorized_clients.remove(username@),
            }),
    {
        let ghost before = *self;
        match self.clients.remove(id) {
            Some(known) => {
                let mut known = known;
                known.invalidate(username);
                self.clients.insert(id.to_owned(), known);
                proof {
                    assert(self.clients@ =~= before.clients@.insert(id@, known));
                    assert(self@.dom() =~= before@.dom());
                    assert forall|other: Seq<char>| self.clients@.contains_key(other) implies (
                    #[trigger] self.clients@[other]).authorized_clients.wf() by {
                        if other != id@ {
                            assert(before.clients@.contains_key(other));
                        }
                    }
                }
            },
            None => {
                proof {
                    assert(self.clients@ =~= before.clients@);
                    assert(self@.dom() =~= before@.dom());
                }
            },
        }
    }

    /// Keeps an authorized client of the administrator `username` for
    /// the server `id`, which the pool knows. The other servers and
    /// the other administrators of this server stay as they are.
    pub fn insert_authorized_client(
        &mut self,
        id: &str,
        username: &str,
        context: RefreshableAdminAuthContext,
    )
        requires
            old(self).wf(),
            old(self)@.contains_key(id@),
        ensures
            final(self).wf(),
            final(self)@.dom() == old(self)@.dom(),
            forall|other: Seq<char>|
                other != id@ && old(self)@.contains_key(other) ==> #[trigger] final(self)@[other]
                    == old(self)@[other],
            final(self)@[id@].base_url == old(self)@[id@].base_url,
            final(self)@[id@].authorized_clients.dom() == old(
                self,
            )@[id@].authorized_clients.dom().insert(username@),
            final(self)@[id@].authorized_clients[username@].auth_context == context,
            final(self)@[id@].authorized_clients[username@].client.base_url@ == old(
                self,
            )@[id@].base_url,
            forall|other: Seq<char>|
                other != username@ && old(self)@[id@].authorized_clients.contains_key(other)
                    ==> #[trigger] final(self)@[id@].authorized_clients[other] == old(
                    self,
                )@[id@].authorized_clients[other],
    {
        let ghost before = *self;
        match self.clients.remove(id) {
            Some(known) => {
                let mut known = known;
                known.insert_authorized_client(username, context);
                let ghost without = self.clients;
                self.clients.insert(id.to_owned(), known);
                proof {
                    assert(self.clients@ =~= before.clients@.insert(id@, known));
                    assert(self@.dom() =~= before@.dom());
                    assert forall|other: Seq<char>| self.clients@.contains_key(other) implies (
                    #[trigger] self.clients@[other]).authorized_clients.wf() by {
                        if other != id@ {
                            assert(before.clients@.contains_key(other));
                        }
                    }
                }
            },
            None => {},
        }
    }
}

/// The authorized client for connection values, if the pool holds one.
/// The pool knows a client of the server afterwards, made for the URL
/// of the values where it knew none. `None` means that a token has to
/// be obtained with the credentials of the values.
pub fn get_admin_client<'a>(pool: &'a mut SftpgoMultiClient, connection_info: &ConnectionInfo) -> (r:
    Option<&'a AuthorizedClient>)
    requires
        old(pool).wf(),
    ensures
        final(pool).wf(),
        old(pool)@.contains_key(connection_info.uid@) ==> final(pool)@ == old(pool)@,
        !old(pool)@.contains_key(connection_info.uid@) ==> final(pool)@ == old(pool)@.insert(
            connection_info.uid@,
            KnownSftpgoClientView {
                base_url: connection_info.url@,
                authorized_clients: Map::empty(),
            },
        ),
        match r {
            Some(c) => final(pool)@[connection_info.uid@].authorized_clients.contains_key(
                connection_info.username@,
            ) && final(pool)@[connection_info.uid@].authorized_clients[connection_info.username@]
                == *c,
            None => !final(pool)@[connection_info.uid@].authorized_clients.contains_key(
                connection_info.username@,
            ),
        },
{
    pool.get_client(connection_info.uid.as_str(), connection_info.url.clone());
    pool.get_authorized_client(connection_info.uid.as_str(), connection_info.username.as_str())
}

/// Where the Secret with the connection values of a server is.
#[derive(Debug)]
pub struct SecretLocation {
    pub namespace: String,
    pub name: String,
}

/// The message for a reference with both a Secret and a server name.
pub open spec fn both_set_message() -> Seq<char> {
    "Both connectionSecret and name are set. Only one of them can be specified"@
}

/// The message for a reference with neither a Secret nor a server name.
pub open spec fn none_set_message() -> Seq<char> {
    "Either connectionSecret or name must be set"@
}

/// The text of an optional text, or a default.
pub open spec fn text_or(s: Option<String>, default: Seq<char>) -> Seq<char> {
    match s {
        Some(t) => t@,
        None => default,
    }
}

/// Where the Secret of a reference is, as namespace and name, or the
/// message of what is wrong with the reference.
///
/// A reference with a Secret must not name a server; the Secret is
/// looked for in its own namespace, else in `namespace`. A reference
/// that names a server means the Secret `<name>-admin-user` in the
/// namespace of the reference, else in `namespace`. A reference with
/// neither is refused.
pub open spec fn secret_location(server_ref: ServerReference, namespace: Seq<char>) -> Result<
    (Seq<char>, Seq<char>),
    Seq<char>,
> {
    match server_ref.connection_secret {
        Some(secret) => if server_ref.name is Some {
            Err(both_set_message())
        } else {
            Ok((text_or(secret.namespace, namespace), secret.name@))
        },
        None => match server_ref.name {
            Some(name) => Ok((text_or(server_ref.namespace, namespace), name@ + "-admin-user"@)),
            None => Err(none_set_message()),
        },
    }
}

/// Where the Secret with the connection values of a referred server is,
/// for a resource in `namespace`.
pub fn get_api_client(server_ref: &ServerReference, namespace: &str) -> (r: Result<SecretLocation, Error>)
    ensures
        match secret_location(*server_ref, namespace@) {
            Ok((ns, name)) => r matches Ok(location) && location.namespace@ == ns && location.name@
                == name,
            Err(message) => r matches Err(Error::UserInput(m)) && m@ == message,
        },
{
    if let Some(connection_secret) = &server_ref.connection_secret {
        if server_ref.name.is_some() {
            return Err(
                Error::UserInput(
                    "Both connectionSecret and name are set. Only one of them can be specified".to_owned(),
                ),
            );
        }
        let secret_namespace = match &connection_secret.namespace {
            Some(ns) => ns.clone(),
            None => namespace.to_owned(),
        };
        Ok(SecretLocation { namespace: secret_namespace, name: connection_secret.name.clone() })
    } else if let Some(name) = &server_ref.name {
        let target_namespace = match &server_ref.namespace {
            Some(ns) => ns.clone(),
            None => namespace.to_owned(),
        };
        let admin_user_secret_name = concat(name.as_str(), "-admin-user");
        Ok(SecretLocation { namespace: target_namespace, name: admin_user_secret_name })
    } else {
        Err(Error::UserInput("Either connectionSecret or name must be set".to_owned()))
    }
}

/// A Secret as it is read from the cluster: its identifier and its
/// keys with their bytes.
#[derive(Debug)]
pub struct AdminSecret {
    pub uid: String,
    pub data: Option<StringMap<Vec<u8>>>,
}

/// What is needed to connect to a server as an administrator.
#[derive(Debug)]
pub struct ConnectionInfo {
    pub url: String,
    pub username: String,
    pub password: String,
    /// The identifier of the Secret that the values come from.
    pub uid: String,
}

/// The model of a [`ConnectionInfo`].
pub struct ConnectionInfoView {
    pub url: Seq<char>,
    pub username: Seq<char>,
    pub password: Seq<char>,
    pub uid: Seq<char>,
}

impl View for ConnectionInfo {
    type V = ConnectionInfoView;

    open spec fn view(&self) -> ConnectionInfoView {
        ConnectionInfoView {
            url: self.url@,
            username: self.username@,
            password: self.password@,
            uid: self.uid@,
        }
    }
}

/// The message for a Secret that does not exist.
pub open spec fn secret_missing_message(name: Seq<char>, namespace: Seq<char>) -> Seq<char> {
    "Secret "@ + name + " not found in namespace "@ + namespace
}

/// The message for a Secret without data.
pub open spec fn secret_empty_message(name: Seq<char>) -> Seq<char> {
    "Secret "@ + name + " does not contain data"@
}

/// The message for a Secret that lacks one of the three keys.
pub open spec fn secret_keys_message(name: Seq<char>) -> Seq<char> {
    "Secret "@ + name
        + " does not contain all required keys. Expected 'username', 'url' and 'password'"@
}

/// The message for a value that is not UTF-8.
pub open spec fn secret_encoding_message() -> Seq<char> {
    "Secret contains invalid UTF-8"@
}

/// The message for a Secret whose URL cannot be parsed.
pub open spec fn secret_url_message(name: Seq<char>, reason: Seq<char>) -> Seq<char> {
    "Secret "@ + name + " contains invalid URL: "@ + reason
}

/// The message for an override whose URL cannot be parsed.
pub open spec fn override_url_message(reason: Seq<char>) -> Seq<char> {
    "Override contains invalid URL: "@ + reason
}

/// The connection values after the overrides of a reference were
/// applied, given what parsing the overriding URL gave, if there is
/// one.
pub open spec fn overridden(
    info: ConnectionInfoView,
    overrides: Option<ConnectionOverride>,
    parsed_override: Option<Result<Seq<char>, Seq<char>>>,
) -> Result<ConnectionInfoView, Seq<char>> {
    match overrides {
        None => Ok(info),
        Some(o) => match parsed_override {
            Some(Err(reason)) => Err(override_url_message(reason)),
            _ => Ok(
                ConnectionInfoView {
                    url: match parsed_override {
                        Some(Ok(u)) => u,
                        _ => info.url,
                    },
                    username: text_or(o.username, info.username),
                    password: text_or(o.password, info.password),
                    uid: info.uid,
                },
            ),
        },
    }
}

/// What parsing the overriding URL of a reference gives, if it has one.
pub open spec fn parsed_override(overrides: Option<ConnectionOverride>) -> Option<
    Result<Seq<char>, Seq<char>>,
> {
    match overrides {
        Some(o) => match o.url {
            Some(u) => Some(url_parse(u@)),
            None => None,
        },
        None => None,
    }
}

/// The connection values that a Secret and the overrides of a
/// reference stand for, or the message of what is wrong.
///
/// The Secret has to exist, to have data, and to hold `url`,
/// `username` and `password` as UTF-8; its URL has to parse. Each
/// override then replaces the value it names; an overriding URL has to
/// parse too.
pub open spec fn connection_values(
    secret: Option<AdminSecret>,
    secret_namespace: Seq<char>,
    secret_name: Seq<char>,
    overrides: Option<ConnectionOverride>,
) -> Result<ConnectionInfoView, Seq<char>> {
    match secret {
        None => Err(secret_missing_message(secret_name, secret_namespace)),
        Some(s) => match s.data {
            None => Err(secret_empty_message(secret_name)),
            Some(data) => if !(data@.contains_key("url"@) && data@.contains_key("username"@)
                && data@.contains_key("password"@)) {
                Err(secret_keys_message(secret_name))
            } else if !(valid_utf8(data@["url"@]@) && valid_utf8(data@["username"@]@) && valid_utf8(
                data@["password"@]@,
            )) {
                Err(secret_encoding_message())
            } else {
                match url_parse(decode_utf8(data@["url"@]@)) {
                    Err(reason) => Err(secret_url_message(secret_name, reason)),
                    Ok(url) => overridden(
                        ConnectionInfoView {
                            url,
                            username: decode_utf8(data@["username"@]@),
                            password: decode_utf8(data@["password"@]@),
                            uid: s.uid@,
                        },
                        overrides,
                        parsed_override(overrides),
                    ),
                }
            },
        },
    }
}

/// Whether `r` is the result that connection values, or a message,
/// stand for.
pub open spec fn is_connection(values: Result<ConnectionInfoView, Seq<char>>, r: Result<ConnectionInfo, Error>) -> bool {
    match values {
        Ok(info) => r matches Ok(x) && x@ == info,
        Err(message) => r matches Err(Error::UserInput(m)) && m@ == message,
    }
}

/// Calls `std::str::from_utf8` and copies the text. The contract says
/// what the documentation of the call says: the text that the bytes
/// encode where they are valid UTF-8, and nothing where they are not.
#[verifier::external_body]
fn parse_secret_value(value: &Vec<u8>) -> (r: Option<String>)
    ensures
        match r {
            Some(s) => valid_utf8(value@) && s@ == decode_utf8(value@),
            None => !valid_utf8(value@),
        },
{
    match std::str::from_utf8(value.as_slice()) {
        Ok(s) => Some(s.to_owned()),
        Err(_) => None,
    }
}

/// Applies the overrides of a reference to connection values, given
/// what parsing the overriding URL gave, if there is one.
pub fn apply_overrides(
    info: ConnectionInfo,
    connection_override: &Option<ConnectionOverride>,
    parsed: Option<Result<String, String>>,
) -> (r: Result<ConnectionInfo, Error>)
    ensures
        is_connection(
            overridden(
                info@,
                *connection_override,
                match parsed {
                    Some(p) => Some(text_result(p)),
                    None => None,
                },
            ),
            r,
        ),
{
    let mut info = info;
    if let Some(o) = connection_override {
        match parsed {
            Some(Err(reason)) => {
                return Err(
                    Error::UserInput(concat("Override contains invalid URL: ", reason.as_str())),
                );
            },
            Some(Ok(u)) => {
                info.url = u;
            },
            None => {},
        }
        if let Some(username) = &o.username {
            info.username = username.clone();
        }
        if let Some(password) = &o.password {
            info.password = password.clone();
        }
    }
    Ok(info)
}

/// The connection values of a Secret whose three values were read as
/// text, given what parsing its URL gave, or the message of what is
/// wrong; the overrides are applied, given what parsing the overriding
/// URL gave, if there is one.
pub open spec fn connection_of(
    secret_name: Seq<char>,
    uid: Seq<char>,
    parsed_url: Result<Seq<char>, Seq<char>>,
    username: Seq<char>,
    password: Seq<char>,
    overrides: Option<ConnectionOverride>,
    parsed: Option<Result<Seq<char>, Seq<char>>>,
) -> Result<ConnectionInfoView, Seq<char>> {
    match parsed_url {
        Err(reason) => Err(secret_url_message(secret_name, reason)),
        Ok(url) => overridden(ConnectionInfoView { url, username, password, uid }, overrides, parsed),
    }
}

/// The connection values of a Secret whose three values were read as
/// text, given what parsing its URL gave and, where an override names
/// a URL, what parsing that one gave.
pub fn connection_from(
    secret_name: &str,
    uid: String,
    parsed_url: Result<String, String>,
    username: String,
    password: String,
    connection_override: &Option<ConnectionOverride>,
    parsed: Option<Result<String, String>>,
) -> (r: Result<ConnectionInfo, Error>)
    ensures
        is_connection(
            connection_of(
                secret_name@,
                uid@,
                text_result(parsed_url),
                username@,
                password@,
                *connection_override,
                match parsed {
                    Some(p) => Some(text_result(p)),
                    None => None,
                },
            ),
            r,
        ),
{
    let u = match parsed_url {
        Ok(u) => u,
        Err(reason) => {
            let mut message = concat("Secret ", secret_name);
            message.append(" contains invalid URL: ");
            message.append(reason.as_str());
            return Err(Error::UserInput(message));
        },
    };
    let info = ConnectionInfo { url: u, username, password, uid };
    apply_overrides(info, connection_override, parsed)
}

/// The connection values that a Secret, as it was read from the
/// cluster (`None` where there is none), and the overrides of a
/// reference stand for.
pub fn get_admin_secret_values(
    secret: Option<&AdminSecret>,
    secret_namespace: &str,
    secret_name: &str,
    connection_override: &Option<ConnectionOverride>,
) -> (r: Result<ConnectionInfo, Error>)
    requires
        secret matches Some(s) ==> (s.data matches Some(d) ==> d.wf()),
    ensures
        is_connection(
            connection_values(
                match secret {
                    Some(s) => Some(*s),
                    None => None,
                },
                secret_namespace@,
                secret_name@,
                *connection_override,
            ),
            r,
        ),
{
    if let Some(secret) = secret {
        if let Some(sd) = &secret.data {
            let found_url = sd.get("url");
            let found_username = sd.get("username");
            let found_password = sd.get("password");
            if found_url.is_none() || found_username.is_none() || found_password.is_none() {
                let mut message = concat("Secret ", secret_name);
                message.append(
                    " does not contain all required keys. Expected 'username', 'url' and 'password'",
                );
                return Err(Error::UserInput(message));
            }
            let url = parse_secret_value(found_url.unwrap());
            let username = parse_secret_value(found_username.unwrap());
            let password = parse_secret_value(found_password.unwrap());
            if url.is_none() || username.is_none() || password.is_none() {
                return Err(Error::UserInput("Secret contains invalid UTF-8".to_owned()));
            }
            let parsed_url = parse_url(url.unwrap().as_str());
            let parsed = match connection_override {
                Some(o) => match &o.url {
                    Some(url) => Some(parse_url(url.as_str())),
                    None => None,
                },
                None => None,
            };
            connection_from(
                secret_name,
                secret.uid.clone(),
                parsed_url,
                username.unwrap(),
                password.unwrap(),
                connection_override,
                parsed,
            )
        } else {
            let mut message = concat("Secret ", secret_name);
            message.append(" does not contain data");
            Err(Error::UserInput(message))
        }
    } else {
        let mut message = concat("Secret ", secret_name);
        message.append(" not found in namespace ");
        message.append(secret_namespace);
        Err(Error::UserInput(message))
    }
}

} // verus!

//! The bearer token of an administrator: when it is still good, and
//! what is stored when a new one arrives.

use crate::client::auth::{
    base64_fits, base64_standard, basic_credentials, basic_header, create_basic_auth_header,
    create_bearer_auth_header, AuthContext,
};
use crate::client::client::SftpgoClientBase;
use crate::client::client::{url_join, SftpgoClient};
use crate::client::error_response::SftpgoError;
use crate::client::rest_client::{is_request, request_to, Operation, Request};
use vstd::prelude::*;
use vstd::utf8::encode_utf8;

verus! {

/// An instant in UTC: whole seconds since the epoch, and the
/// nanoseconds into the second.
#[derive(Debug, Clone, Copy, PartialEq, Eq, Structural)]
pub struct Timestamp {
    pub seconds: i64,
    pub nanos: u32,
}

/// Seconds for which a new token is trusted at most.
pub const TOKEN_LIFETIME_SECONDS: i64 = 30;

/// The endpoint that exchanges credentials for a token.
pub const TOKEN_ENDPOINT: &'static str = "/api/v2/token";

impl Timestamp {
    /// Whether this instant is later than `other`.
    pub open spec fn spec_is_after(&self, other: Timestamp) -> bool {
        self.seconds > other.seconds || (self.seconds == other.seconds && self.nanos
            > other.nanos)
    }

    /// Whether this instant is later than `other`.
    pub fn is_after(&self, other: &Timestamp) -> (b: bool)
        ensures
            b == self.spec_is_after(*other),
    {
        self.seconds > other.seconds || (self.seconds == other.seconds && self.nanos
            > other.nanos)
    }

    /// This instant plus a number of seconds, or the last second that
    /// can be written where the sum cannot.
    pub open spec fn spec_plus_seconds(&self, seconds: i64) -> Timestamp {
        Timestamp {
            seconds: if self.seconds + seconds > i64::MAX {
                i64::MAX
            } else if self.seconds + seconds < i64::MIN {
                i64::MIN
            } else {
                (self.seconds + seconds) as i64
            },
            nanos: self.nanos,
        }
    }

    /// This instant plus a number of seconds, saturating.
    pub fn plus_seconds(&self, seconds: i64) -> (t: Timestamp)
        ensures
            t == self.spec_plus_seconds(seconds),
    {
        let sum = match self.seconds.checked_add(seconds) {
            Some(s) => s,
            None => if seconds > 0 {
                i64::MAX
            } else {
                i64::MIN
            },
        };
        Timestamp { seconds: sum, nanos: self.nanos }
    }

    /// The earlier of two instants.
    pub open spec fn spec_earliest(a: Timestamp, b: Timestamp) -> Timestamp {
        if a.spec_is_after(b) {
            b
        } else {
            a
        }
    }

    /// The earlier of two instants.
    pub fn earliest(a: Timestamp, b: Timestamp) -> (t: Timestamp)
        ensures
            t == Timestamp::spec_earliest(a, b),
    {
        if a.is_after(&b) {
            b
        } else {
            a
        }
    }
}

/// The expiry that is stored for a token: the one that the server
/// reports, but no later than 30 seconds from now.
pub open spec fn clamped_expiry(reported: Timestamp, now: Timestamp) -> Timestamp {
    Timestamp::spec_earliest(reported, now.spec_plus_seconds(30))
}

/// The expiry that is stored for a token reported to expire at
/// `reported` and obtained at `now`.
pub fn clamped_token_expiry(reported: Timestamp, now: Timestamp) -> (t: Timestamp)
    ensures
        t == clamped_expiry(reported, now),
{
    Timestamp::earliest(reported, now.plus_seconds(TOKEN_LIFETIME_SECONDS))
}

/// A token as the server hands it out.
#[derive(Debug, Clone)]
pub struct AdminAccessToken {
    pub access_token: String,
    pub expires_at: Timestamp,
}

/// The credentials of an administrator.
#[derive(Debug, Clone)]
pub struct AuthInfo {
    pub username: String,
    pub password: String,
}

/// The token that is held, with the instant up to which it is used.
#[derive(Debug, Clone)]
pub struct StoredAccessToken {
    pub access_token: String,
    pub expires_at: Timestamp,
}

/// The credentials of an administrator together with the token that
/// was last obtained with them.
#[derive(Debug, Clone)]
pub struct RefreshableAdminAuthContext {
    pub creds: AuthInfo,
    pub token: StoredAccessToken,
}

/// Calls `Utc::now` of chrono and takes the instant apart with
/// `timestamp` and `timestamp_subsec_nanos`. Nothing is promised of
/// the result: it is the time of the call. The call panics where the
/// clock of the machine stands before 1970.
#[verifier::external_body]
fn current_time() -> (now: Timestamp) {
    let now = chrono::Utc::now();
    Timestamp { seconds: now.timestamp(), nanos: now.timestamp_subsec_nanos() }
}

impl AuthContext for RefreshableAdminAuthContext {
    type Instant = Timestamp;

    /// The header value of the held token, if its expiry lies after
    /// `now`.
    open spec fn header_at(&self, now: Timestamp) -> Option<Seq<char>> {
        if self.token.expires_at.spec_is_after(now) {
            Some("Bearer "@ + self.token.access_token@)
        } else {
            None
        }
    }

    fn get_auth_header_value(&self, now: Timestamp) -> (header: Option<String>) {
        if self.token.expires_at.is_after(&now) {
            Some(create_bearer_auth_header(self.token.access_token.as_str()))
        } else {
            None
        }
    }
}

impl RefreshableAdminAuthContext {
    /// Credentials with the first token obtained with them, at `now`.
    pub fn new(username: String, password: String, initial_token: AdminAccessToken, now: Timestamp) -> (ctx:
        Self)
        ensures
            ctx.creds.username@ == username@,
            ctx.creds.password@ == password@,
            ctx.token.access_token@ == initial_token.access_token@,
            ctx.token.expires_at == clamped_expiry(initial_token.expires_at, now),
    {
        RefreshableAdminAuthContext {
            creds: AuthInfo { username, password },
            token: StoredAccessToken {
                access_token: initial_token.access_token,
                expires_at: clamped_token_expiry(initial_token.expires_at, now),
            },
        }
    }

    /// Credentials with the first token obtained with them just now.
    /// The stored expiry is at most the reported one, whatever the
    /// time of the call.
    pub fn new_now(username: String, password: String, initial_token: AdminAccessToken) -> (ctx: Self)
        ensures
            ctx.creds.username@ == username@,
            ctx.creds.password@ == password@,
            ctx.token.access_token@ == initial_token.access_token@,
            !ctx.token.expires_at.spec_is_after(initial_token.expires_at),
    {
        Self::new(username, password, initial_token, current_time())
    }

    /// The header value of the held token where it is still used at
    /// the time of the call; `None` where a new token has to be
    /// obtained. Whatever the time, a header is that of the held token.
    pub fn get_current_auth_header_value(&self) -> (header: Option<String>)
        ensures
            header matches Some(s) ==> s@ == "Bearer "@ + self.token.access_token@,
    {
        self.get_auth_header_value(current_time())
    }

    /// Holds the token that was obtained at `now` and gives its header
    /// value. The stored expiry is clamped.
    pub fn store_token(&mut self, new_token: AdminAccessToken, now: Timestamp) -> (header: String)
        ensures
            header@ == "Bearer "@ + new_token.access_token@,
            final(self).creds == old(self).creds,
            final(self).token.access_token@ == new_token.access_token@,
            final(self).token.expires_at == clamped_expiry(new_token.expires_at, now),
    {
        let header_value = create_bearer_auth_header(new_token.access_token.as_str());
        self.token = StoredAccessToken {
            access_token: new_token.access_token,
            expires_at: clamped_token_expiry(new_token.expires_at, now),
        };
        header_value
    }

    /// Holds the token that was just obtained and gives its header
    /// value. The stored expiry is at most the reported one, whatever
    /// the time of the call.
    pub fn store_token_now(&mut self, new_token: AdminAccessToken) -> (header: String)
        ensures
            header@ == "Bearer "@ + new_token.access_token@,
            final(self).creds == old(self).creds,
            final(self).token.access_token@ == new_token.access_token@,
            !final(self).token.expires_at.spec_is_after(new_token.expires_at),
    {
        self.store_token(new_token, current_time())
    }

    /// The header value with which a new token is asked for: HTTP Basic
    /// with the credentials.
    pub fn create_admin_access_token_header(&self) -> (header: String)
        requires
            base64_fits(
                encode_utf8(basic_credentials(self.creds.username@, self.creds.password@)).len(),
            ),
        ensures
            header@ == basic_header(
                base64_standard(
                    encode_utf8(basic_credentials(self.creds.username@, self.creds.password@)),
                ),
            ),
    {
        create_basic_auth_header(self.creds.username.as_str(), self.creds.password.as_str())
    }
}

/// The request that exchanges the credentials of an administrator for
/// a token: a GET of the token endpoint with HTTP Basic.
pub fn create_admin_access_token(client: &SftpgoClient, username: &str, password: &str) -> (r: Result<
    Request,
    SftpgoError,
>)
    requires
        base64_fits(encode_utf8(basic_credentials(username@, password@)).len()),
    ensures
        is_request(
            Operation::Get,
            url_join(client.base_url@, TOKEN_ENDPOINT@),
            basic_header(base64_standard(encode_utf8(basic_credentials(username@, password@)))),
            r,
        ),
{
    let auth_header_value = create_basic_auth_header(username, password);
    request_to(Operation::Get, client.url_for(TOKEN_ENDPOINT), auth_header_value)
}

} // verus!

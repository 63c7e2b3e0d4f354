//! The values of the `Authorization` header.

use crate::text::concat;
use vstd::prelude::*;
use vstd::string::StringSliceAdditionalSpecFns;
use vstd::utf8::encode_utf8;

verus! {

/// The base64 text of a sequence of bytes, in the standard alphabet with
/// padding, as the base64 crate's `STANDARD` engine encodes it.
pub uninterp spec fn base64_standard(bytes: Seq<u8>) -> Seq<char>;

/// Whether the encoder can hold the base64 text of `len` bytes: four
/// characters for every three bytes, begun or complete.
pub open spec fn base64_fits(len: nat) -> bool {
    (len / 3 + 1) * 4 <= isize::MAX
}

/// Calls `Engine::encode` on `general_purpose::STANDARD` of the base64
/// crate with the bytes of `text`. The contract names the result: the
/// standard base64 text of those bytes. The call panics where the
/// length of the result overflows, which the precondition excludes.
#[verifier::external_body]
fn base64_encode(text: &str) -> (r: String)
    requires
        base64_fits(text.spec_bytes().len()),
    ensures
        r@ == base64_standard(text.spec_bytes()),
{
    base64::Engine::encode(&base64::engine::general_purpose::STANDARD, text)
}

/// The header value for credentials that are already encoded.
pub open spec fn basic_header(encoded: Seq<char>) -> Seq<char> {
    "Basic "@ + encoded
}

/// The text that HTTP Basic encodes: the name, a colon, the password.
pub open spec fn basic_credentials(username: Seq<char>, password: Seq<char>) -> Seq<char> {
    username + ":"@ + password
}

/// The header value for credentials that are already encoded: `Basic`,
/// a space, and the encoded credentials.
pub fn basic_auth_header_from_encoded(encoded: &str) -> (r: String)
    ensures
        r@ == basic_header(encoded@),
{
    concat("Basic ", encoded)
}

/// The header value of HTTP Basic for a name and a password: `Basic`, a
/// space, and the base64 text of `<name>:<password>`.
pub fn create_basic_auth_header(username: &str, password: &str) -> (r: String)
    requires
        base64_fits(encode_utf8(basic_credentials(username@, password@)).len()),
    ensures
        r@ == basic_header(base64_standard(encode_utf8(basic_credentials(username@, password@)))),
{
    let name_and_colon = concat(username, ":");
    let credentials = concat(name_and_colon.as_str(), password);
    let encoded = base64_encode(credentials.as_str());
    basic_auth_header_from_encoded(encoded.as_str())
}

/// The header value for a bearer token: `Bearer`, a space, and the
/// token.
pub fn create_bearer_auth_header(token: &str) -> (r: String)
    ensures
        r@ == "Bearer "@ + token@,
{
    concat("Bearer ", token)
}

/// Credentials that give the header value for a request while their
/// token is good.
pub trait AuthContext {
    /// The instants that the credentials are asked at.
    type Instant;

    /// The header value at an instant, if the token is still used then.
    spec fn header_at(&self, now: Self::Instant) -> Option<Seq<char>>;

    /// The header value at `now`; `None` where a new token has to be
    /// obtained first.
    fn get_auth_header_value(&self, now: Self::Instant) -> (header: Option<String>)
        ensures
            match self.header_at(now) {
                Some(h) => header matches Some(s) && s@ == h,
                None => header is None,
            },
    ;
}

} // verus!

//! Session tokens as they travel in the `SSID` cookie, and the cookie itself.
use crate::text::digit_char;
use vstd::prelude::*;

verus! {

/// Name of the cookie that carries the session token.
pub const SSID: &'static str = "SSID";

/// Lifetime of a session and of its cookie: seven days, in seconds.
pub const SESSION_MAX_AGE_SECONDS: i64 = 604800;

/// The 128-bit value that `Uuid::parse_str` reads from a text, if it accepts it.
pub uninterp spec fn uuid_parsed(s: Seq<char>) -> Option<u128>;

/// `16` to the power `k`.
pub open spec fn pow16(k: nat) -> int
    decreases k,
{
    if k == 0 {
        1
    } else {
        16 * pow16((k - 1) as nat)
    }
}

/// The `d`-th of the 32 hexadecimal digits of a value, most significant first.
pub open spec fn hex_nibble(token: u128, d: int) -> int {
    (token as int / pow16((31 - d) as nat)) % 16
}

/// Which hexadecimal digit stands at position `i` of the hyphenated text.
pub open spec fn uuid_digit_index(i: int) -> int {
    if i < 8 {
        i
    } else if i < 13 {
        i - 1
    } else if i < 18 {
        i - 2
    } else if i < 23 {
        i - 3
    } else {
        i - 4
    }
}

/// The hyphenated lower-case text that `Uuid`'s `Display` writes for a value:
/// 32 hexadecimal digits, most significant first, in groups of 8, 4, 4, 4 and
/// 12 separated by `-`.
pub open spec fn uuid_text(token: u128) -> Seq<char> {
    Seq::new(
        36,
        |i: int|
            if i == 8 || i == 13 || i == 18 || i == 23 {
                '-'
            } else {
                digit_char(hex_nibble(token, uuid_digit_index(i)))
            },
    )
}

/// Relies on `uuid::Uuid::parse_str` (re-exported by sqlx) and `Uuid::as_u128`:
/// the outcome depends on the text alone.
#[verifier::external_body]
fn parse_uuid(s: &str) -> (r: Option<u128>)
    ensures
        r == uuid_parsed(s@),
{
    sqlx::types::Uuid::parse_str(s).ok().map(|u| u.as_u128())
}

/// Relies on `uuid::Uuid::from_u128` and the `Display` of `Uuid`, which writes
/// the hyphenated lower-case form; `Uuid::parse_str` reads the value back
/// from it.
#[verifier::external_body]
fn format_uuid(token: u128) -> (r: String)
    ensures
        r@ == uuid_text(token),
        uuid_parsed(r@) == Some(token),
{
    sqlx::types::Uuid::from_u128(token).to_string()
}

/// Reads a session token from the text of a cookie.
pub fn parse_session_token(s: &str) -> (r: Option<u128>)
    ensures
        r == uuid_parsed(s@),
{
    parse_uuid(s)
}

/// Writes a session token as the text that the cookie carries.
pub fn session_token_text(token: u128) -> (r: String)
    ensures
        r@ == uuid_text(token),
        uuid_parsed(r@) == Some(token),
{
    format_uuid(token)
}

/// The `SameSite` attribute of a cookie.
#[derive(Clone, Copy, Debug, PartialEq, Eq, Structural)]
pub enum SameSite {
    Strict,
    Lax,
}

/// A cookie as the transport layer is to set or clear it.
#[derive(Clone, Debug)]
pub struct SessionCookie {
    pub name: String,
    pub value: String,
    pub http_only: bool,
    pub secure: bool,
    pub path: String,
    pub same_site: SameSite,
    pub max_age_seconds: i64,
}

/// The cookie that carries a session token: `SSID=<token>; HttpOnly; Secure; Path=/;
/// SameSite=Strict; Max-Age=604800`.
pub open spec fn is_ssid_cookie(c: SessionCookie, token: u128) -> bool {
    &&& c.name@ == SSID@
    &&& c.value@ == uuid_text(token)
    &&& uuid_parsed(c.value@) == Some(token)
    &&& c.http_only
    &&& c.secure
    &&& c.path@ == "/"@
    &&& c.same_site == SameSite::Strict
    &&& c.max_age_seconds == SESSION_MAX_AGE_SECONDS
}

impl SessionCookie {
    /// The session cookie for a token. Setting and clearing use the same
    /// attributes, so that a browser matches the one to the other.
    pub fn for_token(token: u128) -> (r: SessionCookie)
        ensures
            is_ssid_cookie(r, token),
    {
        SessionCookie {
            name: String::from_str(SSID),
            value: format_uuid(token),
            http_only: true,
            secure: true,
            path: String::from_str("/"),
            same_site: SameSite::Strict,
            max_age_seconds: SESSION_MAX_AGE_SECONDS,
        }
    }
}

} // verus!

//! Records exchanged with the storage layer and the client-facing projections.
//!
//! Timestamps are UTC instants counted in microseconds since the Unix epoch;
//! session tokens are the 128-bit value of their UUID.
use vstd::prelude::*;

verus! {

/// A row of the `sessions` table.
#[derive(Debug)]
pub struct DatabaseSession {
    pub id: u128,
    pub user_id: i32,
    pub created_at: i64,
    pub expires_at: i64,
}

/// A row of the `users` table. The password hash never leaves the server.
#[derive(Debug)]
pub struct DatabaseUser {
    pub id: i32,
    pub created_at: i64,
    pub account_id: i32,
    pub email: String,
    pub password_hash: String,
}

/// The only representation of a user that is sent to a client: it holds
/// neither the password hash nor the account.
#[derive(Debug)]
pub struct ClientUser {
    pub id: i32,
    pub email: String,
    pub created_at: i64,
}

impl From<DatabaseUser> for ClientUser {
    fn from(user: DatabaseUser) -> (r: Self) {
        ClientUser { id: user.id, email: user.email, created_at: user.created_at }
    }
}

impl vstd::std_specs::convert::FromSpecImpl<DatabaseUser> for ClientUser {
    open spec fn obeys_from_spec() -> bool {
        true
    }

    open spec fn from_spec(user: DatabaseUser) -> Self {
        ClientUser { id: user.id, email: user.email, created_at: user.created_at }
    }
}

/// The body of a register or login request.
#[derive(Clone, Debug)]
pub struct ClientAuthenticationCredentials {
    pub email: String,
    pub password: String,
}

/// Credentials whose email has been normalised to lower case.
pub struct ExtractClientAuthenticationCredentials<T>(pub T);

/// What `str::to_lowercase` returns for a string.
pub uninterp spec fn lowercase_of(s: Seq<char>) -> Seq<char>;

/// Relies on `str::to_lowercase`: the result depends on the characters alone,
/// and an empty string stays empty.
#[verifier::external_body]
fn to_lowercase(s: &str) -> (r: String)
    ensures
        r@ == lowercase_of(s@),
        s@.len() == 0 ==> r@.len() == 0,
{
    s.to_lowercase()
}

impl ExtractClientAuthenticationCredentials<ClientAuthenticationCredentials> {
    /// Normalises the email of the credentials to lower case; the password
    /// is kept as it was sent.
    pub fn from_credentials(credentials: ClientAuthenticationCredentials) -> (r: Self)
        ensures
            r.0.email@ == lowercase_of(credentials.email@),
            r.0.password == credentials.password,
    {
        let email = to_lowercase(credentials.email.as_str());
        ExtractClientAuthenticationCredentials(
            ClientAuthenticationCredentials { email, password: credentials.password },
        )
    }
}

/// The body of a response that only reports success.
#[derive(Clone, Copy, Debug, PartialEq, Eq, Structural)]
pub struct ApiStatusResponse {
    pub status: bool,
}

/// The body of a response that reports success with a message.
#[derive(Clone, Debug)]
pub struct ApiMessageResponse {
    pub status: bool,
    pub message: String,
}

} // verus!

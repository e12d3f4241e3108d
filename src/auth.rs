//! The error taxonomy of the authentication core, the status and client-safe
//! message of each error, and the helpers shared by the flows.
use crate::clock::{datetime_text, naive_datetime_text};
use crate::database;
use crate::password_hash::{hash_password_with_fresh_salt, password_check_of, PasswordCheck};
use crate::response::{
    ErrorResponse, STATUS_BAD_REQUEST, STATUS_CONFLICT, STATUS_INTERNAL_SERVER_ERROR,
    STATUS_NOT_FOUND, STATUS_UNAUTHORIZED,
};
use crate::session_token::{is_ssid_cookie, parse_session_token, uuid_parsed, SessionCookie};
use vstd::prelude::*;

verus! {

/// Why a password hash could not be produced or read.
#[derive(Clone, Debug)]
pub enum HashFault {
    /// The stored string is not a PHC string.
    MalformedHash,
    /// The hasher failed; its message.
    HashingFailed(String),
}

/// Which check turned the credentials down. The client never learns which.
#[derive(Clone, Copy, Debug, PartialEq, Eq, Structural)]
pub enum CredentialsFault {
    UnknownEmail,
    PasswordMismatch,
}

/// An internal failure with no more specific kind.
#[derive(Clone, Debug)]
pub enum Fault {
    /// A live session names a user that does not exist.
    UserMissingForValidSession,
    /// The storage layer answered with a reply that the step did not ask for.
    UnexpectedReply,
    /// Any other failure; its message.
    Message(String),
}

/// Errors of the authentication flows.
#[derive(Debug)]
pub enum Error {
    DatabaseError(database::Error),
    MissingSessionCookie,
    MissingSessionInDatabase,
    InvalidSessionCookieWrongUuidFormat { ssid: Option<String> },
    /// The session expired at this instant (microseconds since the epoch, UTC).
    SessionExpired(i64),
    UserNotFound,
    PasswordRequirementsNotMet,
    PasswordHashError(HashFault),
    EmailTaken(String),
    AlreadyAuthenticated,
    InvalidCredentials { cause: CredentialsFault },
    /// A logout whose session could not be resolved; the resolution error.
    ClientError { source: Option<Box<Error>> },
    Other(Fault),
}

/// The HTTP status of each error.
pub open spec fn status_of(e: Error) -> u16 {
    match e {
        Error::MissingSessionCookie => STATUS_UNAUTHORIZED,
        Error::MissingSessionInDatabase => STATUS_UNAUTHORIZED,
        Error::InvalidSessionCookieWrongUuidFormat { .. } => STATUS_UNAUTHORIZED,
        Error::SessionExpired(_) => STATUS_UNAUTHORIZED,
        Error::InvalidCredentials { .. } => STATUS_UNAUTHORIZED,
        Error::PasswordRequirementsNotMet => STATUS_BAD_REQUEST,
        Error::AlreadyAuthenticated => STATUS_BAD_REQUEST,
        Error::ClientError { .. } => STATUS_BAD_REQUEST,
        Error::UserNotFound => STATUS_NOT_FOUND,
        Error::EmailTaken(_) => STATUS_CONFLICT,
        Error::DatabaseError(_) => STATUS_INTERNAL_SERVER_ERROR,
        Error::PasswordHashError(_) => STATUS_INTERNAL_SERVER_ERROR,
        Error::Other(_) => STATUS_INTERNAL_SERVER_ERROR,
    }
}

/// The message a client sees for each error. It follows from the kind of the
/// error; the diagnostic it carries (storage and hasher messages, the cause of
/// a credentials failure, the source of a client error) never shows.
pub open spec fn message_of(e: Error) -> Seq<char> {
    match e {
        Error::MissingSessionCookie => "Missing ssid cookie"@,
        Error::MissingSessionInDatabase => "Missing session for ssid cookie in database"@,
        Error::InvalidSessionCookieWrongUuidFormat { .. } => "Invalid ssid cookie"@,
        Error::SessionExpired(at) => match naive_datetime_text(at) {
            Some(text) => "Session expired at: "@ + text,
            None => "Session expired"@,
        },
        Error::UserNotFound => "User not found"@,
        Error::PasswordRequirementsNotMet => "Weak password does not meet the policy requirements"@,
        Error::EmailTaken(email) => "Email already taken: "@ + email@,
        Error::AlreadyAuthenticated => "Already authenticated"@,
        Error::InvalidCredentials { .. } => "Invalid email or password"@,
        Error::ClientError { .. } => "Bad Request"@,
        Error::DatabaseError(_) => "Internal Server Error"@,
        Error::PasswordHashError(_) => "Internal Server Error"@,
        Error::Other(_) => "Internal Server Error"@,
    }
}

impl Error {
    /// The HTTP status of the error.
    pub fn status(&self) -> (r: u16)
        ensures
            r == status_of(*self),
    {
        match self {
            Error::MissingSessionCookie => STATUS_UNAUTHORIZED,
            Error::MissingSessionInDatabase => STATUS_UNAUTHORIZED,
            Error::InvalidSessionCookieWrongUuidFormat { .. } => STATUS_UNAUTHORIZED,
            Error::SessionExpired(_) => STATUS_UNAUTHORIZED,
            Error::InvalidCredentials { .. } => STATUS_UNAUTHORIZED,
            Error::PasswordRequirementsNotMet => STATUS_BAD_REQUEST,
            Error::AlreadyAuthenticated => STATUS_BAD_REQUEST,
            Error::ClientError { .. } => STATUS_BAD_REQUEST,
            Error::UserNotFound => STATUS_NOT_FOUND,
            Error::EmailTaken(_) => STATUS_CONFLICT,
            Error::DatabaseError(_) => STATUS_INTERNAL_SERVER_ERROR,
            Error::PasswordHashError(_) => STATUS_INTERNAL_SERVER_ERROR,
            Error::Other(_) => STATUS_INTERNAL_SERVER_ERROR,
        }
    }

    /// The client-safe message of the error.
    pub fn message(&self) -> (r: String)
        ensures
            r@ == message_of(*self),
    {
        match self {
            Error::MissingSessionCookie => String::from_str("Missing ssid cookie"),
            Error::MissingSessionInDatabase => String::from_str(
                "Missing session for ssid cookie in database",
            ),
            Error::InvalidSessionCookieWrongUuidFormat { .. } => String::from_str(
                "Invalid ssid cookie",
            ),
            Error::SessionExpired(at) => match datetime_text(*at) {
                Some(text) => String::from_str("Session expired at: ").concat(text.as_str()),
                None => String::from_str("Session expired"),
            },
            Error::UserNotFound => String::from_str("User not found"),
            Error::PasswordRequirementsNotMet => String::from_str(
                "Weak password does not meet the policy requirements",
            ),
            Error::EmailTaken(email) => String::from_str("Email already taken: ").concat(
                email.as_str(),
            ),
            Error::AlreadyAuthenticated => String::from_str("Already authenticated"),
            Error::InvalidCredentials { .. } => String::from_str("Invalid email or password"),
            Error::ClientError { .. } => String::from_str("Bad Request"),
            Error::DatabaseError(_) => String::from_str("Internal Server Error"),
            Error::PasswordHashError(_) => String::from_str("Internal Server Error"),
            Error::Other(_) => String::from_str("Internal Server Error"),
        }
    }

    /// The body the client receives for the error.
    pub fn response(&self) -> (r: ErrorResponse)
        ensures
            r.status == status_of(*self),
            r.message@ == message_of(*self),
    {
        ErrorResponse { message: self.message(), status: self.status() }
    }
}

/// Builds the session cookie for a token given as text. A text that is not a
/// UUID is refused.
pub fn create_ssid_cookie(ssid: &str) -> (r: Result<SessionCookie, Error>)
    ensures
        uuid_parsed(ssid@) matches Some(token) ==> r matches Ok(c) && is_ssid_cookie(c, token),
        uuid_parsed(ssid@) is None ==> r matches Err(
            Error::InvalidSessionCookieWrongUuidFormat { ssid: None },
        ),
{
    match parse_session_token(ssid) {
        Some(token) => Ok(SessionCookie::for_token(token)),
        None => Err(Error::InvalidSessionCookieWrongUuidFormat { ssid: None }),
    }
}

/// Hashes a password under a fresh random salt. The hash returned is a PHC
/// string against which the password verifies; a failure of the hasher is a
/// `PasswordHashError`. The salt, and so the hash, differ from call to call.
pub fn hash_password(password: &str) -> (r: Result<String, Error>)
    ensures
        r matches Err(e) ==> e matches Error::PasswordHashError(HashFault::HashingFailed(_)),
        r matches Ok(h) ==> password_check_of(password@, h@) == PasswordCheck::Verified,
{
    match hash_password_with_fresh_salt(password) {
        Ok(hash) => Ok(hash),
        Err(message) => Err(Error::PasswordHashError(HashFault::HashingFailed(message))),
    }
}

} // verus!

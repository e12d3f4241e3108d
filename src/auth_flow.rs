//! The four use cases — get session, register, login, logout — as a state
//! machine. The machine decides; the caller performs each [`Action`] against
//! the storage layer and hands back what happened as an [`Event`], until the
//! machine answers with [`Action::Finish`].
//!
//! Statements from `BeginTransaction` on run in one transaction. It is
//! committed only on `Commit`; a flow that finishes without it rolls the
//! transaction back, so no partial account, user or session is ever seen.
use crate::auth::{status_of, CredentialsFault, Error, Fault, HashFault};
use crate::clock::now_micros;
use crate::database::{self, StorageFailure};
use crate::password_hash::{check_password, password_check_of, PasswordCheck};
use crate::password_policy::{meets_policy, validate_password_policy};
use crate::session_token::{
    is_ssid_cookie, parse_session_token, uuid_parsed, SessionCookie, SESSION_MAX_AGE_SECONDS,
};
use crate::types::{
    ApiStatusResponse, ClientAuthenticationCredentials, ClientUser, DatabaseSession, DatabaseUser,
};
use vstd::prelude::*;

verus! {

/// The use case that a flow serves.
#[derive(Clone, Copy, Debug, PartialEq, Eq, Structural)]
pub enum FlowKind {
    GetSession,
    Register,
    Login,
    Logout,
}

/// Where a flow stands: which reply of the storage layer it waits for.
#[derive(Debug)]
pub enum Stage {
    /// The session row of the token.
    AwaitSession { token: u128 },
    /// The deletion of a session found expired at `expires_at`.
    AwaitExpiredDeletion { expires_at: i64 },
    /// The owner of a live session.
    AwaitSessionUser { token: u128 },
    /// The start of the transaction.
    AwaitTransaction,
    /// Whether the email is taken.
    AwaitEmailCheck,
    /// The id of the new account.
    AwaitAccount,
    /// The hash of the password, for the new user of this account.
    AwaitPasswordHash { account_id: i32 },
    /// The new user row.
    AwaitUserInsert,
    /// The user row found by email.
    AwaitLoginUser,
    /// The new session row of this user.
    AwaitSessionInsert { user: ClientUser },
    /// The commit that makes the user and the session visible.
    AwaitCommit { user: ClientUser, token: u128 },
    /// The deletion of the session that is logged out.
    AwaitLogoutDeletion { token: u128 },
    /// The flow has finished.
    Done,
}

/// A flow in progress. Register and login carry the credentials (the email
/// already lower case); the other two carry empty ones.
#[derive(Debug)]
pub struct AuthFlow {
    pub kind: FlowKind,
    pub email: String,
    pub password: String,
    /// The text of the `SSID` cookie that came with the request.
    pub cookie: Option<String>,
    pub stage: Stage,
}

/// A successful answer.
#[derive(Debug)]
pub enum Reply {
    User(ClientUser),
    Status(ApiStatusResponse),
}

/// What the transport does with the session cookie of the response.
#[derive(Clone, Copy, Debug, PartialEq, Eq, Structural)]
pub enum CookieChange {
    Keep,
    /// Set the cookie of this token (see `SessionCookie::for_token`).
    Issue(u128),
    /// Clear the cookie of this token, with the attributes it was set with.
    Clear(u128),
}

/// What the caller is to do next.
#[derive(Debug)]
pub enum Action {
    /// Read the session row with this id.
    FetchSession { token: u128 },
    /// Delete the session row with this id.
    DeleteSession { token: u128 },
    /// Read the client projection of the user with this id.
    FetchUserById { user_id: i32 },
    /// Open the transaction.
    BeginTransaction,
    /// Ask whether a user has this email.
    CheckEmailTaken { email: String },
    /// Insert an account and report its id.
    InsertAccount,
    /// Hash the password with `auth::hash_password`, off any latency-sensitive thread.
    HashPassword { password: String },
    /// Insert a user and report the row.
    InsertUser { email: String, password_hash: String, account_id: i32 },
    /// Read the user row with this email.
    FetchUserByEmail { email: String },
    /// Insert a session for this user, created at `created_at` and expiring
    /// at `expires_at`, and report the row.
    InsertSession { user_id: i32, created_at: i64, expires_at: i64 },
    /// Commit the transaction.
    Commit,
    /// Answer the request; a transaction still open is rolled back.
    Finish { outcome: Result<Reply, Error>, cookie: CookieChange },
}

/// What the storage layer (or the hasher) reported.
#[derive(Debug)]
pub enum Event {
    SessionFetched(Option<DatabaseSession>),
    SessionDeleted,
    UserFetched(Option<ClientUser>),
    TransactionBegun,
    EmailChecked(bool),
    AccountInserted(i32),
    PasswordHashed(Result<String, Error>),
    UserInserted(DatabaseUser),
    UserFound(Option<DatabaseUser>),
    SessionInserted(DatabaseSession),
    Committed,
    StorageFailed(StorageFailure),
}

impl AuthFlow {
    /// The stage is one that the flow's use case passes through: every use
    /// case resolves the session first; only a registration checks the email,
    /// inserts an account and a user; only a login looks a user up by email;
    /// only a logout deletes its own session.
    pub open spec fn wf(self) -> bool {
        match self.stage {
            Stage::AwaitSession { .. } | Stage::AwaitExpiredDeletion { .. }
            | Stage::AwaitSessionUser { .. } | Stage::Done => true,
            Stage::AwaitEmailCheck | Stage::AwaitAccount | Stage::AwaitPasswordHash { .. }
            | Stage::AwaitUserInsert => self.kind == FlowKind::Register,
            Stage::AwaitLoginUser => self.kind == FlowKind::Login,
            Stage::AwaitTransaction | Stage::AwaitSessionInsert { .. } | Stage::AwaitCommit {
                ..
            } => self.kind == FlowKind::Register || self.kind == FlowKind::Login,
            Stage::AwaitLogoutDeletion { .. } => self.kind == FlowKind::Logout,
        }
    }
}

// ---- the transition function ----

pub open spec fn with_stage(flow: AuthFlow, stage: Stage) -> AuthFlow {
    AuthFlow { stage, ..flow }
}

pub open spec fn finished(flow: AuthFlow, outcome: Result<Reply, Error>, cookie: CookieChange) -> (
    AuthFlow,
    Action,
) {
    (with_stage(flow, Stage::Done), Action::Finish { outcome, cookie })
}

pub open spec fn storage_error(f: StorageFailure) -> Error {
    Error::DatabaseError(database::Error::ConnectionError(f.detail))
}

/// A reply that the stage did not ask for ends the flow.
pub open spec fn unexpected(flow: AuthFlow) -> (AuthFlow, Action) {
    finished(flow, Err(Error::Other(Fault::UnexpectedReply)), CookieChange::Keep)
}

/// A failed statement inside the transaction. For a registration a broken
/// unique constraint means that the email was taken meanwhile.
pub open spec fn transaction_failed(flow: AuthFlow, f: StorageFailure) -> (AuthFlow, Action) {
    if flow.kind == FlowKind::Register && f.unique_violation {
        finished(flow, Err(Error::EmailTaken(flow.email)), CookieChange::Keep)
    } else {
        finished(flow, Err(storage_error(f)), CookieChange::Keep)
    }
}

/// Where a flow goes once the session of the request has been resolved to
/// its owner and token, or has failed to resolve.
pub open spec fn resolved(flow: AuthFlow, outcome: Result<(ClientUser, u128), Error>) -> (
    AuthFlow,
    Action,
) {
    match flow.kind {
        FlowKind::GetSession => match outcome {
            Ok((user, _)) => finished(flow, Ok(Reply::User(user)), CookieChange::Keep),
            Err(e) => finished(flow, Err(e), CookieChange::Keep),
        },
        FlowKind::Register => match outcome {
            Ok(_) => finished(flow, Err(Error::AlreadyAuthenticated), CookieChange::Keep),
            Err(_) => if meets_policy(flow.password@) {
                (with_stage(flow, Stage::AwaitTransaction), Action::BeginTransaction)
            } else {
                finished(flow, Err(Error::PasswordRequirementsNotMet), CookieChange::Keep)
            },
        },
        FlowKind::Login => match outcome {
            Ok(_) => finished(flow, Err(Error::AlreadyAuthenticated), CookieChange::Keep),
            Err(_) => (with_stage(flow, Stage::AwaitTransaction), Action::BeginTransaction),
        },
        FlowKind::Logout => match outcome {
            Ok((_, token)) => (
                with_stage(flow, Stage::AwaitLogoutDeletion { token }),
                Action::DeleteSession { token },
            ),
            Err(e) => finished(
                flow,
                Err(Error::ClientError { source: Some(Box::new(e)) }),
                CookieChange::Keep,
            ),
        },
    }
}

/// Lifetime of a session, in microseconds: seven days.
pub const SESSION_TTL_MICROS: i64 = SESSION_MAX_AGE_SECONDS * 1_000_000;

/// When a session created at `now` expires: seven days later, or at the
/// last representable instant where that lies beyond it.
pub open spec fn session_expiry(now: i64) -> i64 {
    if now <= i64::MAX - SESSION_TTL_MICROS {
        (now + SESSION_TTL_MICROS) as i64
    } else {
        i64::MAX
    }
}

/// The session to insert for a user at the instant `now`.
pub open spec fn insert_session(user_id: i32, now: i64) -> Action {
    Action::InsertSession { user_id, created_at: now, expires_at: session_expiry(now) }
}

/// The client projection of a user row.
pub open spec fn client_of(u: DatabaseUser) -> ClientUser {
    ClientUser { id: u.id, email: u.email, created_at: u.created_at }
}

/// The session row of the cookie's token has been read. A session is live
/// while `now < expires_at`; an expired one is deleted before the flow goes on.
pub open spec fn on_session_row(flow: AuthFlow, token: u128, row: Option<DatabaseSession>, now: i64) -> (
    AuthFlow,
    Action,
) {
    match row {
        None => resolved(flow, Err(Error::MissingSessionInDatabase)),
        Some(s) => if now >= s.expires_at {
            (
                with_stage(flow, Stage::AwaitExpiredDeletion { expires_at: s.expires_at }),
                Action::DeleteSession { token },
            )
        } else {
            (
                with_stage(flow, Stage::AwaitSessionUser { token }),
                Action::FetchUserById { user_id: s.user_id },
            )
        },
    }
}

/// The user row found by email has been read; the password is checked against
/// its hash.
pub open spec fn on_login_user(flow: AuthFlow, found: Option<DatabaseUser>, now: i64) -> (
    AuthFlow,
    Action,
) {
    match found {
        None => finished(
            flow,
            Err(Error::InvalidCredentials { cause: CredentialsFault::UnknownEmail }),
            CookieChange::Keep,
        ),
        Some(u) => match password_check_of(flow.password@, u.password_hash@) {
            PasswordCheck::Verified => (
                with_stage(flow, Stage::AwaitSessionInsert { user: client_of(u) }),
                insert_session(u.id, now),
            ),
            PasswordCheck::Mismatch => finished(
                flow,
                Err(Error::InvalidCredentials { cause: CredentialsFault::PasswordMismatch }),
                CookieChange::Keep,
            ),
            PasswordCheck::Malformed => finished(
                flow,
                Err(Error::PasswordHashError(HashFault::MalformedHash)),
                CookieChange::Keep,
            ),
        },
    }
}

/// The state the flow starts in, and its first action: the session of the
/// request is resolved first, from the token in its cookie.
pub open spec fn started(flow: AuthFlow) -> (AuthFlow, Action) {
    match flow.cookie {
        None => resolved(flow, Err(Error::MissingSessionCookie)),
        Some(text) => match uuid_parsed(text@) {
            None => resolved(
                flow,
                Err(Error::InvalidSessionCookieWrongUuidFormat { ssid: Some(text) }),
            ),
            Some(token) => (
                with_stage(flow, Stage::AwaitSession { token }),
                Action::FetchSession { token },
            ),
        },
    }
}

/// One transition: the flow's next state and action, given what the storage
/// layer reported and the current instant.
pub open spec fn next(flow: AuthFlow, event: Event, now: i64) -> (AuthFlow, Action) {
    match flow.stage {
        Stage::AwaitSession { token } => match event {
            Event::SessionFetched(row) => on_session_row(flow, token, row, now),
            Event::StorageFailed(f) => resolved(flow, Err(storage_error(f))),
            _ => unexpected(flow),
        },
        Stage::AwaitExpiredDeletion { expires_at } => match event {
            Event::SessionDeleted => resolved(flow, Err(Error::SessionExpired(expires_at))),
            Event::StorageFailed(f) => resolved(flow, Err(storage_error(f))),
            _ => unexpected(flow),
        },
        Stage::AwaitSessionUser { token } => match event {
            Event::UserFetched(Some(user)) => resolved(flow, Ok((user, token))),
            Event::UserFetched(None) => resolved(
                flow,
                Err(Error::Other(Fault::UserMissingForValidSession)),
            ),
            Event::StorageFailed(f) => resolved(flow, Err(storage_error(f))),
            _ => unexpected(flow),
        },
        Stage::AwaitTransaction => match event {
            Event::TransactionBegun => match flow.kind {
                FlowKind::Register => (
                    with_stage(flow, Stage::AwaitEmailCheck),
                    Action::CheckEmailTaken { email: flow.email },
                ),
                FlowKind::Login => (
                    with_stage(flow, Stage::AwaitLoginUser),
                    Action::FetchUserByEmail { email: flow.email },
                ),
                _ => unexpected(flow),
            },
            Event::StorageFailed(f) => transaction_failed(flow, f),
            _ => unexpected(flow),
        },
        Stage::AwaitEmailCheck => match event {
            Event::EmailChecked(taken) => if taken {
                finished(flow, Err(Error::EmailTaken(flow.email)), CookieChange::Keep)
            } else {
                (with_stage(flow, Stage::AwaitAccount), Action::InsertAccount)
            },
            Event::StorageFailed(f) => transaction_failed(flow, f),
            _ => unexpected(flow),
        },
        Stage::AwaitAccount => match event {
            Event::AccountInserted(account_id) => (
                with_stage(flow, Stage::AwaitPasswordHash { account_id }),
                Action::HashPassword { password: flow.password },
            ),
            Event::StorageFailed(f) => transaction_failed(flow, f),
            _ => unexpected(flow),
        },
        Stage::AwaitPasswordHash { account_id } => match event {
            Event::PasswordHashed(Ok(password_hash)) => (
                with_stage(flow, Stage::AwaitUserInsert),
                Action::InsertUser { email: flow.email, password_hash, account_id },
            ),
            Event::PasswordHashed(Err(e)) => finished(flow, Err(e), CookieChange::Keep),
            _ => unexpected(flow),
        },
        Stage::AwaitUserInsert => match event {
            Event::UserInserted(u) => (
                with_stage(flow, Stage::AwaitSessionInsert { user: client_of(u) }),
                insert_session(u.id, now),
            ),
            Event::StorageFailed(f) => transaction_failed(flow, f),
            _ => unexpected(flow),
        },
        Stage::AwaitLoginUser => match event {
            Event::UserFound(found) => on_login_user(flow, found, now),
            Event::StorageFailed(f) => transaction_failed(flow, f),
            _ => unexpected(flow),
        },
        Stage::AwaitSessionInsert { user } => match event {
            Event::SessionInserted(s) => (
                with_stage(flow, Stage::AwaitCommit { user, token: s.id }),
                Action::Commit,
            ),
            Event::StorageFailed(f) => transaction_failed(flow, f),
            _ => unexpected(flow),
        },
        Stage::AwaitCommit { user, token } => match event {
            Event::Committed => finished(flow, Ok(Reply::User(user)), CookieChange::Issue(token)),
            Event::StorageFailed(f) => transaction_failed(flow, f),
            _ => unexpected(flow),
        },
        Stage::AwaitLogoutDeletion { token } => match event {
            Event::SessionDeleted => finished(
                flow,
                Ok(Reply::Status(ApiStatusResponse { status: true })),
                CookieChange::Clear(token),
            ),
            Event::StorageFailed(f) => finished(flow, Err(storage_error(f)), CookieChange::Keep),
            _ => unexpected(flow),
        },
        Stage::Done => unexpected(flow),
    }
}

// ---- the executable machine ----

fn finish(flow: AuthFlow, outcome: Result<Reply, Error>, cookie: CookieChange) -> (r: (
    AuthFlow,
    Action,
))
    ensures
        r == finished(flow, outcome, cookie),
{
    let AuthFlow { kind, email, password, cookie: ssid, stage: _ } = flow;
    (AuthFlow { kind, email, password, cookie: ssid, stage: Stage::Done }, Action::Finish { outcome, cookie })
}

fn move_to(flow: AuthFlow, stage: Stage) -> (r: AuthFlow)
    ensures
        r == with_stage(flow, stage),
{
    let AuthFlow { kind, email, password, cookie, stage: _ } = flow;
    AuthFlow { kind, email, password, cookie, stage }
}

fn storage_failure(f: StorageFailure) -> (r: Error)
    ensures
        r == storage_error(f),
{
    Error::DatabaseError(database::Error::ConnectionError(f.detail))
}

fn unexpected_reply(flow: AuthFlow) -> (r: (AuthFlow, Action))
    ensures
        r == unexpected(flow),
{
    finish(flow, Err(Error::Other(Fault::UnexpectedReply)), CookieChange::Keep)
}

fn fail_transaction(flow: AuthFlow, f: StorageFailure) -> (r: (AuthFlow, Action))
    ensures
        r == transaction_failed(flow, f),
{
    if flow.kind == FlowKind::Register && f.unique_violation {
        let email = flow.email.clone();
        finish(flow, Err(Error::EmailTaken(email)), CookieChange::Keep)
    } else {
        finish(flow, Err(storage_failure(f)), CookieChange::Keep)
    }
}

fn resolve(flow: AuthFlow, outcome: Result<(ClientUser, u128), Error>) -> (r: (AuthFlow, Action))
    ensures
        r == resolved(flow, outcome),
{
    match flow.kind {
        FlowKind::GetSession => match outcome {
            Ok((user, _)) => finish(flow, Ok(Reply::User(user)), CookieChange::Keep),
            Err(e) => finish(flow, Err(e), CookieChange::Keep),
        },
        FlowKind::Register => match outcome {
            Ok(_) => finish(flow, Err(Error::AlreadyAuthenticated), CookieChange::Keep),
            Err(_) => if validate_password_policy(flow.password.as_str()) {
                (move_to(flow, Stage::AwaitTransaction), Action::BeginTransaction)
            } else {
                finish(flow, Err(Error::PasswordRequirementsNotMet), CookieChange::Keep)
            },
        },
        FlowKind::Login => match outcome {
            Ok(_) => finish(flow, Err(Error::AlreadyAuthenticated), CookieChange::Keep),
            Err(_) => (move_to(flow, Stage::AwaitTransaction), Action::BeginTransaction),
        },
        FlowKind::Logout => match outcome {
            Ok((_, token)) => (
                move_to(flow, Stage::AwaitLogoutDeletion { token }),
                Action::DeleteSession { token },
            ),
            Err(e) => finish(
                flow,
                Err(Error::ClientError { source: Some(Box::new(e)) }),
                CookieChange::Keep,
            ),
        },
    }
}

fn new_session(user_id: i32, now: i64) -> (r: Action)
    ensures
        r == insert_session(user_id, now),
{
    let expires_at = if now <= i64::MAX - SESSION_TTL_MICROS {
        now + SESSION_TTL_MICROS
    } else {
        i64::MAX
    };
    Action::InsertSession { user_id, created_at: now, expires_at }
}

fn client_from(u: DatabaseUser) -> (r: ClientUser)
    ensures
        r == client_of(u),
{
    ClientUser::from(u)
}

impl AuthFlow {
    /// Starts a flow of the given kind: the session of the request is resolved
    /// first, from the token in its cookie.
    fn start(kind: FlowKind, email: String, password: String, cookie: Option<String>) -> (r: (
        AuthFlow,
        Action,
    ))
        ensures
            r == started(AuthFlow { kind, email, password, cookie, stage: Stage::Done }),
            r.0.wf(),
    {
        let token = match &cookie {
            None => None,
            Some(text) => Some(parse_session_token(text.as_str())),
        };
        let flow = AuthFlow { kind, email, password, cookie, stage: Stage::Done };
        match token {
            None => resolve(flow, Err(Error::MissingSessionCookie)),
            Some(None) => {
                let text = flow.cookie.clone();
                resolve(flow, Err(Error::InvalidSessionCookieWrongUuidFormat { ssid: text }))
            },
            Some(Some(token)) => (
                move_to(flow, Stage::AwaitSession { token }),
                Action::FetchSession { token },
            ),
        }
    }

    /// Reads the session of a request: the user it belongs to.
    pub fn get_session(cookie: Option<String>) -> (r: (AuthFlow, Action))
        ensures
            r.0.email@.len() == 0,
            r.0.password@.len() == 0,
            r == started(
                AuthFlow {
                    kind: FlowKind::GetSession,
                    email: r.0.email,
                    password: r.0.password,
                    cookie,
                    stage: Stage::Done,
                },
            ),
            r.0.wf(),
    {
        AuthFlow::start(FlowKind::GetSession, String::new(), String::new(), cookie)
    }

    /// Registers a user with the credentials (the email already lower case).
    pub fn register(credentials: ClientAuthenticationCredentials, cookie: Option<String>) -> (r: (
        AuthFlow,
        Action,
    ))
        ensures
            r == started(
                AuthFlow {
                    kind: FlowKind::Register,
                    email: credentials.email,
                    password: credentials.password,
                    cookie,
                    stage: Stage::Done,
                },
            ),
            r.0.wf(),
    {
        AuthFlow::start(FlowKind::Register, credentials.email, credentials.password, cookie)
    }

    /// Logs a user in with the credentials (the email already lower case).
    pub fn login(credentials: ClientAuthenticationCredentials, cookie: Option<String>) -> (r: (
        AuthFlow,
        Action,
    ))
        ensures
            r == started(
                AuthFlow {
                    kind: FlowKind::Login,
                    email: credentials.email,
                    password: credentials.password,
                    cookie,
                    stage: Stage::Done,
                },
            ),
            r.0.wf(),
    {
        AuthFlow::start(FlowKind::Login, credentials.email, credentials.password, cookie)
    }

    /// Logs out the session of the request.
    pub fn logout(cookie: Option<String>) -> (r: (AuthFlow, Action))
        ensures
            r.0.email@.len() == 0,
            r.0.password@.len() == 0,
            r == started(
                AuthFlow {
                    kind: FlowKind::Logout,
                    email: r.0.email,
                    password: r.0.password,
                    cookie,
                    stage: Stage::Done,
                },
            ),
            r.0.wf(),
    {
        AuthFlow::start(FlowKind::Logout, String::new(), String::new(), cookie)
    }

    /// One transition at the instant `now` (microseconds since the epoch, UTC).
    pub fn step(self, event: Event, now: i64) -> (r: (AuthFlow, Action))
        ensures
            r == next(self, event, now),
            self.wf() ==> r.0.wf(),
    {
        let AuthFlow { kind, email, password, cookie, stage } = self;
        let flow = AuthFlow { kind, email, password, cookie, stage: Stage::Done };
        match stage {
            Stage::AwaitSession { token } => match event {
                Event::SessionFetched(None) => resolve(flow, Err(Error::MissingSessionInDatabase)),
                Event::SessionFetched(Some(s)) => if now >= s.expires_at {
                    (
                        move_to(flow, Stage::AwaitExpiredDeletion { expires_at: s.expires_at }),
                        Action::DeleteSession { token },
                    )
                } else {
                    (
                        move_to(flow, Stage::AwaitSessionUser { token }),
                        Action::FetchUserById { user_id: s.user_id },
                    )
                },
                Event::StorageFailed(f) => resolve(flow, Err(storage_failure(f))),
                _ => unexpected_reply(flow),
            },
            Stage::AwaitExpiredDeletion { expires_at } => match event {
                Event::SessionDeleted => resolve(flow, Err(Error::SessionExpired(expires_at))),
                Event::StorageFailed(f) => resolve(flow, Err(storage_failure(f))),
                _ => unexpected_reply(flow),
            },
            Stage::AwaitSessionUser { token } => match event {
                Event::UserFetched(Some(user)) => resolve(flow, Ok((user, token))),
                Event::UserFetched(None) => resolve(
                    flow,
                    Err(Error::Other(Fault::UserMissingForValidSession)),
                ),
                Event::StorageFailed(f) => resolve(flow, Err(storage_failure(f))),
                _ => unexpected_reply(flow),
            },
            Stage::AwaitTransaction => match event {
                Event::TransactionBegun => match flow.kind {
                    FlowKind::Register => {
                        let email = flow.email.clone();
                        (move_to(flow, Stage::AwaitEmailCheck), Action::CheckEmailTaken { email })
                    },
                    FlowKind::Login => {
                        let email = flow.email.clone();
                        (move_to(flow, Stage::AwaitLoginUser), Action::FetchUserByEmail { email })
                    },
                    _ => unexpected_reply(flow),
                },
                Event::StorageFailed(f) => fail_transaction(flow, f),
                _ => unexpected_reply(flow),
            },
            Stage::AwaitEmailCheck => match event {
                Event::EmailChecked(taken) => if taken {
                    let email = flow.email.clone();
                    finish(flow, Err(Error::EmailTaken(email)), CookieChange::Keep)
                } else {
                    (move_to(flow, Stage::AwaitAccount), Action::InsertAccount)
                },
                Event::StorageFailed(f) => fail_transaction(flow, f),
                _ => unexpected_reply(flow),
            },
            Stage::AwaitAccount => match event {
                Event::AccountInserted(account_id) => {
                    let password = flow.password.clone();
                    (
                        move_to(flow, Stage::AwaitPasswordHash { account_id }),
                        Action::HashPassword { password },
                    )
                },
                Event::StorageFailed(f) => fail_transaction(flow, f),
                _ => unexpected_reply(flow),
            },
            Stage::AwaitPasswordHash { account_id } => match event {
                Event::PasswordHashed(Ok(password_hash)) => {
                    let email = flow.email.clone();
                    (
                        move_to(flow, Stage::AwaitUserInsert),
                        Action::InsertUser { email, password_hash, account_id },
                    )
                },
                Event::PasswordHashed(Err(e)) => finish(flow, Err(e), CookieChange::Keep),
                _ => unexpected_reply(flow),
            },
            Stage::AwaitUserInsert => match event {
                Event::UserInserted(u) => {
                    let user_id = u.id;
                    let user = client_from(u);
                    (
                        move_to(flow, Stage::AwaitSessionInsert { user }),
                        new_session(user_id, now),
                    )
                },
                Event::StorageFailed(f) => fail_transaction(flow, f),
                _ => unexpected_reply(flow),
            },
            Stage::AwaitLoginUser => match event {
                Event::UserFound(None) => finish(
                    flow,
                    Err(Error::InvalidCredentials { cause: CredentialsFault::UnknownEmail }),
                    CookieChange::Keep,
                ),
                Event::UserFound(Some(u)) => match check_password(
                    flow.password.as_str(),
                    u.password_hash.as_str(),
                ) {
                    PasswordCheck::Verified => {
                        let user_id = u.id;
                        let user = client_from(u);
                        (
                            move_to(flow, Stage::AwaitSessionInsert { user }),
                            new_session(user_id, now),
                        )
                    },
                    PasswordCheck::Mismatch => finish(
                        flow,
                        Err(Error::InvalidCredentials { cause: CredentialsFault::PasswordMismatch }),
                        CookieChange::Keep,
                    ),
                    PasswordCheck::Malformed => finish(
                        flow,
                        Err(Error::PasswordHashError(HashFault::MalformedHash)),
                        CookieChange::Keep,
                    ),
                },
                Event::StorageFailed(f) => fail_transaction(flow, f),
                _ => unexpected_reply(flow),
            },
            Stage::AwaitSessionInsert { user } => match event {
                Event::SessionInserted(s) => (
                    move_to(flow, Stage::AwaitCommit { user, token: s.id }),
                    Action::Commit,
                ),
                Event::StorageFailed(f) => fail_transaction(flow, f),
                _ => unexpected_reply(flow),
            },
            Stage::AwaitCommit { user, token } => match event {
                Event::Committed => finish(flow, Ok(Reply::User(user)), CookieChange::Issue(token)),
                Event::StorageFailed(f) => fail_transaction(flow, f),
                _ => unexpected_reply(flow),
            },
            Stage::AwaitLogoutDeletion { token } => match event {
                Event::SessionDeleted => finish(
                    flow,
                    Ok(Reply::Status(ApiStatusResponse { status: true })),
                    CookieChange::Clear(token),
                ),
                Event::StorageFailed(f) => finish(flow, Err(storage_failure(f)), CookieChange::Keep),
                _ => unexpected_reply(flow),
            },
            Stage::Done => unexpected_reply(flow),
        }
    }

    /// One transition at the current instant of the wall clock.
    pub fn advance(self, event: Event) -> (r: (AuthFlow, Action))
        ensures
            exists|now: i64| r == next(self, event, now),
            self.wf() ==> r.0.wf(),
    {
        let now = now_micros();
        self.step(event, now)
    }
}

// ---- laws of the flows ----

/// The action performed never adds a row: it is not one of the inserts, nor
/// the commit that publishes them.
pub open spec fn creates_no_rows(a: Action) -> bool {
    !(a is InsertAccount || a is InsertUser || a is InsertSession || a is Commit)
}

/// A new flow of `kind` with these credentials and cookie, before its start.
pub open spec fn fresh(kind: FlowKind, email: String, password: String, cookie: Option<String>) -> AuthFlow {
    AuthFlow { kind, email, password, cookie, stage: Stage::Done }
}

/// Registering and then resolving the issued session. A registration without
/// a session cookie and with a password that meets the policy opens the
/// transaction, checks the email, inserts the account, hashes the password,
/// inserts the user `u` and its session `s`, commits, and answers with the
/// client projection of `u` and the cookie of `s`. A later request that
/// carries the value of that cookie looks up `s`, then the user `u.id`, and
/// answers with whatever user the store returns for that id.
pub proof fn lemma_register_then_resolve(
    email: String,
    password: String,
    account_id: i32,
    hash: String,
    u: DatabaseUser,
    s: DatabaseSession,
    cookie: SessionCookie,
    found: ClientUser,
    empty: String,
    now: i64,
)
    requires
        meets_policy(password@),
        s.user_id == u.id,
        is_ssid_cookie(cookie, s.id),
        now < s.expires_at,
    ensures
        ({
            let (r0, a0) = started(fresh(FlowKind::Register, email, password, None));
            let (r1, a1) = next(r0, Event::TransactionBegun, now);
            let (r2, a2) = next(r1, Event::EmailChecked(false), now);
            let (r3, a3) = next(r2, Event::AccountInserted(account_id), now);
            let (r4, a4) = next(r3, Event::PasswordHashed(Ok(hash)), now);
            let (r5, a5) = next(r4, Event::UserInserted(u), now);
            let (r6, a6) = next(r5, Event::SessionInserted(s), now);
            let (r7, a7) = next(r6, Event::Committed, now);
            &&& a0 == Action::BeginTransaction
            &&& a1 == Action::CheckEmailTaken { email }
            &&& a2 == Action::InsertAccount
            &&& a3 == Action::HashPassword { password }
            &&& a4 == Action::InsertUser { email, password_hash: hash, account_id }
            &&& a5 == insert_session(u.id, now)
            &&& a6 == Action::Commit
            &&& a7 == Action::Finish {
                outcome: Ok(Reply::User(client_of(u))),
                cookie: CookieChange::Issue(s.id),
            }
            &&& r7.stage == Stage::Done
        }),
        ({
            let (g0, b0) = started(fresh(FlowKind::GetSession, empty, empty, Some(cookie.value)));
            let (g1, b1) = next(g0, Event::SessionFetched(Some(s)), now);
            let (g2, b2) = next(g1, Event::UserFetched(Some(found)), now);
            &&& b0 == Action::FetchSession { token: s.id }
            &&& b1 == Action::FetchUserById { user_id: u.id }
            &&& b2 == Action::Finish { outcome: Ok(Reply::User(found)), cookie: CookieChange::Keep }
        }),
{
}

/// Registering with an email that is already taken fails with `EmailTaken`
/// and status 409, and nothing is inserted: the flow opens the transaction,
/// checks the email and finishes, which rolls the transaction back. A
/// unique-constraint violation reported by a statement of the transaction (a
/// concurrent registration that committed first) ends the same way.
pub proof fn lemma_taken_email_is_refused(
    email: String,
    password: String,
    flow: AuthFlow,
    f: StorageFailure,
    now: i64,
)
    requires
        meets_policy(password@),
    ensures
        ({
            let (r0, a0) = started(fresh(FlowKind::Register, email, password, None));
            let (r1, a1) = next(r0, Event::TransactionBegun, now);
            let (r2, a2) = next(r1, Event::EmailChecked(true), now);
            &&& a0 == Action::BeginTransaction
            &&& a1 == Action::CheckEmailTaken { email }
            &&& a2 == Action::Finish { outcome: Err(Error::EmailTaken(email)), cookie: CookieChange::Keep }
            &&& r2.stage == Stage::Done
            &&& creates_no_rows(a0) && creates_no_rows(a1) && creates_no_rows(a2)
        }),
        status_of(Error::EmailTaken(email)) == 409,
        flow.kind == FlowKind::Register && f.unique_violation && (flow.stage is AwaitTransaction
            || flow.stage is AwaitEmailCheck || flow.stage is AwaitAccount
            || flow.stage is AwaitUserInsert || flow.stage is AwaitSessionInsert
            || flow.stage is AwaitCommit) ==> next(flow, Event::StorageFailed(f), now) == finished(
            flow,
            Err(Error::EmailTaken(flow.email)),
            CookieChange::Keep,
        ),
{
}

/// A session whose `expires_at` is not after the current instant is deleted
/// (the very token is), and resolving it then fails with `SessionExpired` and
/// status 401.
pub proof fn lemma_expired_session_is_deleted(
    token: u128,
    s: DatabaseSession,
    email: String,
    password: String,
    cookie: Option<String>,
    now: i64,
    later: i64,
)
    requires
        now >= s.expires_at,
    ensures
        ({
            let flow = AuthFlow { kind: FlowKind::GetSession, email, password, cookie, stage: Stage::AwaitSession { token } };
            let (f1, a1) = next(flow, Event::SessionFetched(Some(s)), now);
            let (f2, a2) = next(f1, Event::SessionDeleted, later);
            &&& a1 == Action::DeleteSession { token }
            &&& a2 == Action::Finish {
                outcome: Err(Error::SessionExpired(s.expires_at)),
                cookie: CookieChange::Keep,
            }
            &&& f2.stage == Stage::Done
        }),
        status_of(Error::SessionExpired(s.expires_at)) == 401,
{
}

/// A register or login request that holds a live session is refused with
/// `AlreadyAuthenticated` and status 400: the flow only reads the session and
/// its user, then finishes, and no row is created.
pub proof fn lemma_authenticated_caller_is_refused(
    kind: FlowKind,
    email: String,
    password: String,
    text: String,
    s: DatabaseSession,
    user: ClientUser,
    now: i64,
)
    requires
        kind == FlowKind::Register || kind == FlowKind::Login,
        uuid_parsed(text@) is Some,
        now < s.expires_at,
    ensures
        ({
            let token = uuid_parsed(text@)->Some_0;
            let (f0, a0) = started(fresh(kind, email, password, Some(text)));
            let (f1, a1) = next(f0, Event::SessionFetched(Some(s)), now);
            let (f2, a2) = next(f1, Event::UserFetched(Some(user)), now);
            &&& a0 == Action::FetchSession { token }
            &&& a1 == Action::FetchUserById { user_id: s.user_id }
            &&& a2 == Action::Finish {
                outcome: Err(Error::AlreadyAuthenticated),
                cookie: CookieChange::Keep,
            }
            &&& f2.stage == Stage::Done
            &&& creates_no_rows(a0) && creates_no_rows(a1) && creates_no_rows(a2)
        }),
        status_of(Error::AlreadyAuthenticated) == 400,
{
}

/// Logging out with a cookie that is not a session token, or with a token that
/// has no session, fails with `ClientError` and status 400.
pub proof fn lemma_logout_without_session_is_client_error(
    email: String,
    password: String,
    text: String,
    token: u128,
    now: i64,
)
    ensures
        uuid_parsed(text@) is None ==> ({
            let (f, a) = started(fresh(FlowKind::Logout, email, password, Some(text)));
            a matches Action::Finish { outcome: Err(e), cookie: CookieChange::Keep }
                && e is ClientError && status_of(e) == 400 && f.stage == Stage::Done
        }),
        ({
            let flow = AuthFlow {
                kind: FlowKind::Logout,
                email,
                password,
                cookie: Some(text),
                stage: Stage::AwaitSession { token },
            };
            let (f, a) = next(flow, Event::SessionFetched(None), now);
            a matches Action::Finish { outcome: Err(e), cookie: CookieChange::Keep }
                && e is ClientError && status_of(e) == 400 && f.stage == Stage::Done
        }),
{
}

/// Every flow starts well formed, and every transition keeps it so: a flow
/// never reaches a stage of another use case.
pub proof fn lemma_flows_stay_well_formed(flow: AuthFlow, event: Event, now: i64)
    ensures
        started(flow).0.wf(),
        flow.wf() ==> next(flow, event, now).0.wf(),
{
}

/// The transaction is committed only once the session row of the new or
/// logged-in user has been inserted, which for a registration comes after
/// the email check, the account and the user.
pub proof fn lemma_commit_follows_session_insert(flow: AuthFlow, event: Event, now: i64)
    ensures
        next(flow, event, now).1 is Commit ==> flow.stage is AwaitSessionInsert
            && event is SessionInserted,
        next(flow, event, now).1 is InsertSession ==> (flow.stage is AwaitUserInsert
            && event is UserInserted) || (flow.stage is AwaitLoginUser && event is UserFound),
        next(flow, event, now).1 is InsertUser ==> flow.stage is AwaitPasswordHash
            && event is PasswordHashed,
        next(flow, event, now).1 is HashPassword ==> flow.stage is AwaitAccount
            && event is AccountInserted,
        next(flow, event, now).1 is InsertAccount ==> flow.stage is AwaitEmailCheck
            && event == Event::EmailChecked(false),
{
}

/// Logging in with the password of a user whose stored hash is one that
/// `auth::hash_password` returned for that password (so the password verifies
/// against it): the flow opens the transaction, finds the user by email,
/// inserts a session of seven days, commits, and answers with the client
/// projection of the user and the cookie of the new session.
pub proof fn lemma_login_with_hashed_password(
    email: String,
    password: String,
    u: DatabaseUser,
    s: DatabaseSession,
    now: i64,
)
    requires
        password_check_of(password@, u.password_hash@) == PasswordCheck::Verified,
    ensures
        ({
            let (r0, a0) = started(fresh(FlowKind::Login, email, password, None));
            let (r1, a1) = next(r0, Event::TransactionBegun, now);
            let (r2, a2) = next(r1, Event::UserFound(Some(u)), now);
            let (r3, a3) = next(r2, Event::SessionInserted(s), now);
            let (r4, a4) = next(r3, Event::Committed, now);
            &&& a0 == Action::BeginTransaction
            &&& a1 == Action::FetchUserByEmail { email }
            &&& a2 == insert_session(u.id, now)
            &&& a3 == Action::Commit
            &&& a4 == Action::Finish {
                outcome: Ok(Reply::User(client_of(u))),
                cookie: CookieChange::Issue(s.id),
            }
        }),
        now <= i64::MAX - SESSION_TTL_MICROS ==> session_expiry(now) == now + 7 * 86_400_000_000,
{
}

} // verus!

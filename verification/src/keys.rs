//! Client keys, sessions and the decisions that bind every query to the key
//! of the caller's own session.

use vstd::prelude::*;
use crate::time::Timestamp;

verus! {

/// Category of a service error.
#[derive(Clone, Copy, Debug, PartialEq, Eq, Structural)]
pub enum AdminErrorKind {
    BadRequest,
    Forbidden,
    NotFound,
    Unavailable,
    Internal,
}

/// A service error: its category and a message for the caller.
#[derive(Clone, Debug, PartialEq, Eq)]
pub struct AdminError {
    pub kind: AdminErrorKind,
    pub message: String,
}

impl AdminError {
    /// An error of `kind` with `message`.
    pub fn new(kind: AdminErrorKind, message: &str) -> (e: AdminError)
        ensures
            e.kind == kind,
            e.message@ == message@,
    {
        AdminError { kind, message: String::from_str(message) }
    }
}

/// Message of the refusal given to an administrator session.
pub open spec fn forbidden_message() -> Seq<char> {
    "当前身份无权访问密钥用量接口"@
}

/// Message of the refusal given while key verification is unavailable.
pub open spec fn verification_unavailable_message() -> Seq<char> {
    "密钥验证暂时不可用"@
}

/// Message of a missing resource.
pub open spec fn not_found_message() -> Seq<char> {
    "资源不存在"@
}

/// The error returned when the requested resource does not exist.
pub fn resource_not_found() -> (e: AdminError)
    ensures
        e.kind == AdminErrorKind::NotFound,
        e.message@ == not_found_message(),
{
    AdminError::new(AdminErrorKind::NotFound, "资源不存在")
}

/// Who a server-side session belongs to.
#[derive(Clone, Debug, PartialEq, Eq)]
pub enum SessionSubject {
    /// A session opened with a client key.
    Key { client_key_id: String },
    /// A session opened by an administrator.
    Admin { admin_user_id: String },
}

/// An account group that a key is bound to.
#[derive(Clone, Debug, PartialEq, Eq)]
pub struct ClientKeyGroup {
    pub id: String,
    pub enabled: bool,
}

/// Rate limits of a key.
#[derive(Clone, Copy, Debug, PartialEq, Eq, Structural)]
pub struct ClientKeyLimits {
    pub max_concurrency: u64,
    pub requests_per_minute: u64,
}

/// Spending limits of a key and what has been used, as canonical decimal text.
#[derive(Clone, Debug, PartialEq, Eq)]
pub struct ClientBudgetStatus {
    pub daily_limit_usd: String,
    pub daily_used_usd: String,
    pub daily_resets_at: Option<Timestamp>,
    pub weekly_limit_usd: String,
    pub weekly_used_usd: String,
    pub weekly_resets_at: Option<Timestamp>,
}

/// A stored client key.
#[derive(Clone, Debug, PartialEq, Eq)]
pub struct ClientKeyRecord {
    pub id: String,
    pub name: String,
    pub prefix: String,
    pub enabled: bool,
    pub groups: Vec<ClientKeyGroup>,
    pub limits: ClientKeyLimits,
    pub budget: ClientBudgetStatus,
}

/// A stored key together with its plaintext.
#[derive(Clone, Debug, PartialEq, Eq)]
pub struct ClientKeySecret {
    pub record: ClientKeyRecord,
    pub plaintext: String,
}

impl ClientKeySecret {
    /// The plaintext, for a response that is allowed to carry it.
    pub fn expose_for_response(&self) -> (p: &String)
        ensures
            p == self.plaintext,
    {
        &self.plaintext
    }
}

/// Why a presented key could not be verified.
#[derive(Clone, Copy, Debug, PartialEq, Eq, Structural)]
pub enum ClientAuthenticationError {
    InvalidKey,
    SnapshotUnavailable,
}

/// The key a session may query: a key session gives its own key, no session
/// gives nothing, and an administrator session is refused.
pub fn key_id(session: Option<SessionSubject>) -> (r: Result<Option<String>, AdminError>)
    ensures
        match session {
            None => r == Ok::<Option<String>, AdminError>(None),
            Some(SessionSubject::Key { client_key_id }) => r == Ok::<Option<String>, AdminError>(Some(client_key_id)),
            Some(SessionSubject::Admin { .. }) => r matches Err(e) && e.kind == AdminErrorKind::Forbidden && e.message@ == forbidden_message(),
        },
{
    match session {
        Some(SessionSubject::Key { client_key_id }) => Ok(Some(client_key_id)),
        Some(SessionSubject::Admin { .. }) => Err(AdminError::new(AdminErrorKind::Forbidden, "当前身份无权访问密钥用量接口")),
        None => Ok(None),
    }
}

/// The session's key as stored, kept only while it is enabled.
pub fn enabled_key(key: Option<ClientKeyRecord>) -> (r: Option<ClientKeyRecord>)
    ensures
        r == (match key {
            Some(k) => if k.enabled { Some(k) } else { None },
            None => None,
        }),
{
    match key {
        Some(k) => if k.enabled { Some(k) } else { None },
        None => None,
    }
}

/// The key that a presented plaintext verified as: an invalid key is no key,
/// and an unavailable verification snapshot is an unavailable service.
pub fn verified_key(verification: Result<String, ClientAuthenticationError>) -> (r: Result<Option<String>, AdminError>)
    ensures
        match verification {
            Ok(id) => r == Ok::<Option<String>, AdminError>(Some(id)),
            Err(ClientAuthenticationError::InvalidKey) => r == Ok::<Option<String>, AdminError>(None),
            Err(ClientAuthenticationError::SnapshotUnavailable) => r matches Err(e) && e.kind == AdminErrorKind::Unavailable && e.message@ == verification_unavailable_message(),
        },
{
    match verification {
        Ok(id) => Ok(Some(id)),
        Err(ClientAuthenticationError::InvalidKey) => Ok(None),
        Err(ClientAuthenticationError::SnapshotUnavailable) => Err(AdminError::new(AdminErrorKind::Unavailable, "密钥验证暂时不可用")),
    }
}

/// The budget of a verified key, given only while the key is enabled.
pub fn enabled_budget(key: Option<ClientKeyRecord>) -> (r: Option<ClientBudgetStatus>)
    ensures
        r == (match key {
            Some(k) => if k.enabled { Some(k.budget) } else { None },
            None => None,
        }),
{
    match key {
        Some(k) => if k.enabled { Some(k.budget) } else { None },
        None => None,
    }
}

/// The secret of the session's key, given only while the key is enabled.
pub fn enabled_secret(secret: Option<ClientKeySecret>) -> (r: Option<ClientKeySecret>)
    ensures
        r == (match secret {
            Some(s) => if s.record.enabled { Some(s) } else { None },
            None => None,
        }),
{
    match secret {
        Some(s) => if s.record.enabled { Some(s) } else { None },
        None => None,
    }
}

} // verus!

//! Issuing session tokens and resolving them again.
//!
//! The session table is shared by all request handlers behind a mutex that
//! is only ever tried, never waited for: a handler that finds it busy fails
//! at once.

use crate::error::{FailureCategory, LockUnavailable};
use crate::models::UserIdT;
use crate::session::SessionTable;
use std::sync::Arc;
use tokio::sync::{Mutex, MutexGuard, TryLockError};
use vstd::prelude::*;

verus! {

/// Declares `tokio::sync::Mutex` as a type whose inside is not looked into.
#[verifier::external_type_specification]
#[verifier::external_body]
#[verifier::reject_recursive_types(T)]
pub struct ExMutex<T: ?Sized>(tokio::sync::Mutex<T>);

/// Declares `tokio::sync::MutexGuard`, the handle to a mutex that is held,
/// as a type whose inside is not looked into.
#[verifier::external_type_specification]
#[verifier::external_body]
#[verifier::reject_recursive_types(T)]
pub struct ExMutexGuard<'a, T: ?Sized>(tokio::sync::MutexGuard<'a, T>);

/// Declares `tokio::sync::TryLockError`, which says that a mutex is held by
/// someone else, as a type whose inside is not looked into.
#[verifier::external_type_specification]
#[verifier::external_body]
pub struct ExTryLockError(tokio::sync::TryLockError);

/// The text of a session token.
pub type SessionIdT = String;

/// The session table as the request handlers share it.
pub type UserSessions = Arc<Mutex<SessionTable>>;

/// A digit of lower-case hexadecimal.
pub open spec fn is_lower_hex(c: char) -> bool {
    ('0' <= c && c <= '9') || ('a' <= c && c <= 'f')
}

/// Whether position `i` of a session token holds a hyphen.
pub open spec fn is_hyphen_position(i: int) -> bool {
    i == 8 || i == 13 || i == 18 || i == 23
}

/// The shape of a session token: a random (version 4) UUID in its canonical
/// text form, 32 lower-case hexadecimal digits in groups of 8, 4, 4, 4 and
/// 12 with hyphens between them.
pub open spec fn is_session_id(text: Seq<char>) -> bool {
    &&& text.len() == 36
    &&& forall|i: int|
        0 <= i < 36 ==> if is_hyphen_position(i) {
            #[trigger] text[i] == '-'
        } else {
            is_lower_hex(text[i])
        }
    &&& text[14] == '4'
    &&& (text[19] == '8' || text[19] == '9' || text[19] == 'a' || text[19] == 'b')
}

/// Calls `uuid::Uuid::new_v4` and renders the result with `to_string`.
///
/// Trusted: the text is the hyphenated lower-case form of a UUID whose
/// version digit is 4 and whose variant digit is 8, 9, a or b. Which UUID
/// it is depends on the operating system's random source, so nothing else
/// is claimed. The call panics if that source cannot deliver.
#[verifier::external_body]
fn random_uuid_text() -> (text: String)
    ensures
        is_session_id(text@),
{
    uuid::Uuid::new_v4().to_string()
}

/// Calls `tokio::sync::Mutex::try_lock`.
///
/// Trusted: nothing is claimed of the outcome, which depends on whether
/// another handler holds the mutex at this moment.
#[verifier::external_body]
fn try_lock_sessions<'a>(sessions: &'a UserSessions) -> (attempt: Result<
    MutexGuard<'a, SessionTable>,
    TryLockError,
>) {
    sessions.try_lock()
}

/// Dereferences a `tokio::sync::MutexGuard` to the table it protects.
///
/// Trusted: nothing is claimed of the table's contents, which other handlers
/// may have changed since this one last saw it.
#[verifier::external_body]
fn held_table<'g, 'a>(guard: &'g MutexGuard<'a, SessionTable>) -> (table: &'g SessionTable) {
    &**guard
}

/// Dereferences a `tokio::sync::MutexGuard` mutably to the table it
/// protects.
///
/// Trusted: nothing is claimed of the table's contents.
#[verifier::external_body]
fn held_table_mut<'g, 'a>(guard: &'g mut MutexGuard<'a, SessionTable>) -> (table:
    &'g mut SessionTable) {
    &mut **guard
}

/// A fresh session token.
pub fn generate_session_id() -> (session_id: SessionIdT)
    ensures
        is_session_id(session_id@),
{
    random_uuid_text()
}

/// Registers `identity` under `session_id` and hands the token back.
pub fn establish_session(table: &mut SessionTable, session_id: SessionIdT, identity: UserIdT) -> (issued:
    SessionIdT)
    ensures
        issued@ == session_id@,
        final(table)@ == old(table)@.insert(session_id@, identity@),
{
    table.insert(session_id.clone(), identity);
    session_id
}

/// Issues a fresh token for `id` and registers it in the shared table.
///
/// Fails, without waiting or retrying, when the table is busy; nothing is
/// registered then.
pub fn add_user_to_sessions(id: UserIdT, sessions: UserSessions) -> (issued: Result<
    SessionIdT,
    LockUnavailable,
>)
    ensures
        issued matches Ok(session_id) ==> is_session_id(session_id@),
{
    let new_session_id = generate_session_id();
    match try_lock_sessions(&sessions) {
        Ok(mut sessions_lock) => {
            let table = held_table_mut(&mut sessions_lock);
            register_session(Some(table), new_session_id, id)
        },
        Err(_) => register_session(None, new_session_id, id),
    }
}

/// Registers `identity` under `session_id` in the table that `access` gives,
/// and hands the token back.
///
/// `access` is the session table, or `None` when it could not be had. Then
/// nothing is registered and the attempt fails; otherwise it succeeds.
pub fn register_session(
    access: Option<&mut SessionTable>,
    session_id: SessionIdT,
    identity: UserIdT,
) -> (issued: Result<SessionIdT, LockUnavailable>)
    ensures
        match access {
            Some(table) => {
                &&& issued matches Ok(token) && token@ == session_id@
                &&& final(table)@ == table@.insert(session_id@, identity@)
            },
            None => issued is Err,
        },
{
    match access {
        Some(table) => Ok(establish_session(table, session_id, identity)),
        None => Err(LockUnavailable),
    }
}

/// What the guard of a protected route decides.
///
/// `token` is the session token the request carried, if any. `access` is the
/// session table as the guard found it, or `None` when the table was busy.
pub open spec fn guard_decision(
    token: Option<Seq<char>>,
    access: Option<Map<Seq<char>, Seq<char>>>,
) -> Result<Seq<char>, FailureCategory> {
    match token {
        None => Err(FailureCategory::Unauthenticated),
        Some(session_id) => match access {
            None => Err(FailureCategory::InternalFailure),
            Some(table) => if table.contains_key(session_id) {
                Ok(table[session_id])
            } else {
                Err(FailureCategory::Unauthenticated)
            },
        },
    }
}

/// The text of an optional string.
pub open spec fn text_of(value: Option<String>) -> Option<Seq<char>> {
    match value {
        Some(text) => Some(text@),
        None => None,
    }
}

/// The contents of a table that may be out of reach.
pub open spec fn contents_of(access: Option<&SessionTable>) -> Option<Map<Seq<char>, Seq<char>>> {
    match access {
        Some(table) => Some(table@),
        None => None,
    }
}

/// The text of the identity in a guard's verdict.
pub open spec fn verdict_of(verdict: Result<UserIdT, FailureCategory>) -> Result<
    Seq<char>,
    FailureCategory,
> {
    match verdict {
        Ok(identity) => Ok(identity@),
        Err(category) => Err(category),
    }
}

/// Decides whether a request may pass a protected route, and as whom.
///
/// `access` is the session table, or `None` when it could not be had. The
/// table is not consulted for a request without a token.
pub fn authenticate(token: Option<String>, access: Option<&SessionTable>) -> (verdict: Result<
    UserIdT,
    FailureCategory,
>)
    ensures
        verdict_of(verdict) == guard_decision(text_of(token), contents_of(access)),
{
    match token {
        Some(session_id) => match access {
            Some(table) => match table.lookup(&session_id) {
                Some(user_id) => Ok(user_id.clone()),
                None => Err(FailureCategory::Unauthenticated),
            },
            None => Err(FailureCategory::InternalFailure),
        },
        None => Err(FailureCategory::Unauthenticated),
    }
}

/// Resolves the session cookie of a request against the shared table.
///
/// A request without a cookie is turned away without touching the table. A
/// busy table turns the request away as an internal failure; there is no
/// second attempt.
pub fn auth_cookie_session(cookie_session_id: Option<String>, sessions: UserSessions) -> (verdict:
    Result<UserIdT, FailureCategory>)
    ensures
        cookie_session_id is None ==> verdict == Err::<UserIdT, FailureCategory>(
            FailureCategory::Unauthenticated,
        ),
        verdict matches Err(category) ==> category == FailureCategory::Unauthenticated || category
            == FailureCategory::InternalFailure,
{
    match cookie_session_id {
        Some(session_id) => match try_lock_sessions(&sessions) {
            Ok(locked_session) => authenticate(Some(session_id), Some(held_table(&locked_session))),
            Err(_locking_session_fail) => authenticate(Some(session_id), None),
        },
        None => authenticate(None, None),
    }
}

/// The session table after the sessions in `history` were established, one
/// after the other, in a table that was empty at first. Each element pairs a
/// token with the identity it was issued for.
pub open spec fn established(history: Seq<(Seq<char>, Seq<char>)>) -> Map<Seq<char>, Seq<char>>
    decreases history.len(),
{
    if history.len() == 0 {
        Map::empty()
    } else {
        established(history.drop_last()).insert(history.last().0, history.last().1)
    }
}

/// Right after a session was established, its token authenticates as the
/// identity it was established for, whatever the table held before.
pub proof fn law_established_session_authenticates(
    table: Map<Seq<char>, Seq<char>>,
    session_id: Seq<char>,
    identity: Seq<char>,
)
    ensures
        guard_decision(Some(session_id), Some(table.insert(session_id, identity))) == Ok::<
            Seq<char>,
            FailureCategory,
        >(identity),
{
}

/// A token that no session was ever established under is turned away as
/// unauthenticated.
pub proof fn law_unissued_token_is_unauthenticated(
    history: Seq<(Seq<char>, Seq<char>)>,
    token: Seq<char>,
)
    requires
        forall|i: int| 0 <= i < history.len() ==> (#[trigger] history[i]).0 != token,
    ensures
        guard_decision(Some(token), Some(established(history))) == Err::<
            Seq<char>,
            FailureCategory,
        >(FailureCategory::Unauthenticated),
    decreases history.len(),
{
    if history.len() > 0 {
        let earlier = history.drop_last();
        assert forall|i: int| 0 <= i < earlier.len() implies (#[trigger] earlier[i]).0
            != token by {
            assert(earlier[i] == history[i]);
        }
        law_unissued_token_is_unauthenticated(earlier, token);
        assert(history.last() == history[history.len() - 1]);
    }
}

/// A request without a token is turned away as unauthenticated, whatever
/// the state of the session table.
pub proof fn law_missing_token_is_unauthenticated(access: Option<Map<Seq<char>, Seq<char>>>)
    ensures
        guard_decision(None, access) == Err::<Seq<char>, FailureCategory>(
            FailureCategory::Unauthenticated,
        ),
{
}

/// A request that carries a token while the session table is busy is
/// turned away as an internal failure, and as nothing else.
pub proof fn law_busy_table_is_internal_failure(token: Seq<char>)
    ensures
        guard_decision(Some(token), None) == Err::<Seq<char>, FailureCategory>(
            FailureCategory::InternalFailure,
        ),
{
}

/// Establishing a session changes what its own token stands for and leaves
/// the verdict on every other token as it was.
pub proof fn law_other_tokens_keep_their_verdict(
    table: Map<Seq<char>, Seq<char>>,
    session_id: Seq<char>,
    identity: Seq<char>,
    other: Seq<char>,
)
    requires
        other != session_id,
    ensures
        guard_decision(Some(other), Some(table.insert(session_id, identity))) == guard_decision(
            Some(other),
            Some(table),
        ),
{
}

} // verus!

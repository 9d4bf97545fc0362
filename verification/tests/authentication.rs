use std::collections::HashSet;
use std::sync::Arc;

use tokio::sync::Mutex;
use warptest::authenticator::{
    add_user_to_sessions, auth_cookie_session, authenticate, establish_session,
    generate_session_id, register_session, UserSessions,
};
use warptest::error::{redirect_target, Failure, FailureCategory, LockUnavailable};
use warptest::session::SessionTable;

fn text(s: &str) -> String {
    s.to_string()
}

fn empty_sessions() -> UserSessions {
    Arc::new(Mutex::new(SessionTable::new()))
}

fn is_canonical_v4(id: &str) -> bool {
    let chars: Vec<char> = id.chars().collect();
    chars.len() == 36
        && chars.iter().enumerate().all(|(i, c)| {
            if i == 8 || i == 13 || i == 18 || i == 23 {
                *c == '-'
            } else {
                matches!(*c, '0'..='9' | 'a'..='f')
            }
        })
        && chars[14] == '4'
        && matches!(chars[19], '8' | '9' | 'a' | 'b')
}

#[test]
fn generated_session_id_is_a_canonical_random_uuid() {
    for _ in 0..100 {
        let id = generate_session_id();
        assert!(is_canonical_v4(&id), "{id}");
        let parsed = uuid::Uuid::parse_str(&id).unwrap();
        assert_eq!(parsed.get_version_num(), 4);
        assert_eq!(parsed.to_string(), id);
    }
}

#[test]
fn generated_session_ids_do_not_repeat() {
    let mut seen = HashSet::new();
    for _ in 0..20_000 {
        assert!(seen.insert(generate_session_id()));
    }
    assert_eq!(seen.len(), 20_000);
}

#[test]
fn sessions_of_one_identity_get_different_tokens() {
    let sessions = empty_sessions();
    let first = add_user_to_sessions(text("u-42"), sessions.clone()).unwrap();
    let second = add_user_to_sessions(text("u-42"), sessions.clone()).unwrap();
    assert_ne!(first, second);
    assert_eq!(sessions.try_lock().unwrap().len(), 2);
    assert_eq!(
        auth_cookie_session(Some(first), sessions.clone()),
        Ok(text("u-42"))
    );
    assert_eq!(auth_cookie_session(Some(second), sessions), Ok(text("u-42")));
}

#[test]
fn established_session_authenticates_its_identity() {
    for identity in ["u-42", "", "someone@example.org", "üser"] {
        let sessions = empty_sessions();
        let token = add_user_to_sessions(text(identity), sessions.clone()).unwrap();
        assert!(is_canonical_v4(&token));
        assert_eq!(
            auth_cookie_session(Some(token), sessions),
            Ok(text(identity))
        );
    }
}

#[test]
fn establish_session_registers_the_token_it_returns() {
    let mut table = SessionTable::new();
    let issued = establish_session(&mut table, text("tok"), text("u-1"));
    assert_eq!(issued, "tok");
    assert_eq!(table.lookup(&text("tok")), Some(&text("u-1")));
    assert_eq!(table.len(), 1);
}

#[test]
fn token_that_was_never_issued_is_unauthenticated() {
    let sessions = empty_sessions();
    let issued = add_user_to_sessions(text("u-42"), sessions.clone()).unwrap();
    for token in ["garbage", "", "u-42", "00000000-0000-4000-8000-000000000000"] {
        assert_ne!(issued, token);
        assert_eq!(
            auth_cookie_session(Some(text(token)), sessions.clone()),
            Err(FailureCategory::Unauthenticated)
        );
    }
    let upper = issued.to_uppercase();
    assert_ne!(issued, upper);
    assert_eq!(
        auth_cookie_session(Some(upper), sessions),
        Err(FailureCategory::Unauthenticated)
    );
}

#[test]
fn missing_token_is_unauthenticated() {
    let sessions = empty_sessions();
    assert_eq!(
        auth_cookie_session(None, sessions.clone()),
        Err(FailureCategory::Unauthenticated)
    );
    add_user_to_sessions(text("u-42"), sessions.clone()).unwrap();
    assert_eq!(
        auth_cookie_session(None, sessions),
        Err(FailureCategory::Unauthenticated)
    );
    assert_eq!(
        authenticate(None, None),
        Err(FailureCategory::Unauthenticated)
    );
    let table = SessionTable::new();
    assert_eq!(
        authenticate(None, Some(&table)),
        Err(FailureCategory::Unauthenticated)
    );
}

#[test]
fn missing_token_is_unauthenticated_even_while_the_table_is_busy() {
    let sessions = empty_sessions();
    let held = sessions.try_lock().unwrap();
    assert_eq!(
        auth_cookie_session(None, sessions.clone()),
        Err(FailureCategory::Unauthenticated)
    );
    drop(held);
}

#[test]
fn authenticate_decides_in_three_ways() {
    let mut table = SessionTable::new();
    table.insert(text("tok"), text("u-1"));
    assert_eq!(
        authenticate(Some(text("tok")), Some(&table)),
        Ok(text("u-1"))
    );
    assert_eq!(
        authenticate(Some(text("other")), Some(&table)),
        Err(FailureCategory::Unauthenticated)
    );
    assert_eq!(
        authenticate(Some(text("tok")), None),
        Err(FailureCategory::InternalFailure)
    );
}

#[test]
fn busy_table_refuses_a_new_session() {
    let sessions = empty_sessions();
    let before = add_user_to_sessions(text("u-1"), sessions.clone()).unwrap();
    let held = sessions.try_lock().unwrap();
    assert_eq!(
        add_user_to_sessions(text("u-2"), sessions.clone()),
        Err(LockUnavailable)
    );
    assert_eq!(held.len(), 1);
    assert_eq!(held.lookup(&before), Some(&text("u-1")));
    drop(held);
    assert_eq!(LockUnavailable.category(), FailureCategory::InternalFailure);
    let after = add_user_to_sessions(text("u-2"), sessions.clone()).unwrap();
    let table = sessions.try_lock().unwrap();
    assert_eq!(table.len(), 2);
    assert_eq!(table.lookup(&before), Some(&text("u-1")));
    assert_eq!(table.lookup(&after), Some(&text("u-2")));
}

#[test]
fn busy_table_turns_a_request_away_as_internal_failure() {
    let sessions = empty_sessions();
    let token = add_user_to_sessions(text("u-1"), sessions.clone()).unwrap();
    let held = sessions.try_lock().unwrap();
    assert_eq!(
        auth_cookie_session(Some(token.clone()), sessions.clone()),
        Err(FailureCategory::InternalFailure)
    );
    assert_eq!(
        auth_cookie_session(Some(text("garbage")), sessions.clone()),
        Err(FailureCategory::InternalFailure)
    );
    drop(held);
    assert_eq!(
        auth_cookie_session(Some(token), sessions.clone()),
        Ok(text("u-1"))
    );
    assert_eq!(sessions.try_lock().unwrap().len(), 1);
}

#[test]
fn of_two_racing_operations_one_completes_and_the_other_reports_contention() {
    let sessions = empty_sessions();
    let mut first = sessions.try_lock().unwrap();
    let second = add_user_to_sessions(text("u-2"), sessions.clone());
    let issued = establish_session(&mut first, text("tok-1"), text("u-1"));
    drop(first);
    assert_eq!(second, Err(LockUnavailable));
    assert_eq!(issued, "tok-1");
    let table = sessions.try_lock().unwrap();
    assert_eq!(table.len(), 1);
    assert_eq!(table.lookup(&text("tok-1")), Some(&text("u-1")));
}

#[test]
fn the_table_is_free_again_after_each_operation() {
    let sessions = empty_sessions();
    for i in 0..50 {
        let token = add_user_to_sessions(format!("u-{i}"), sessions.clone()).unwrap();
        assert_eq!(
            auth_cookie_session(Some(token), sessions.clone()),
            Ok(format!("u-{i}"))
        );
    }
    assert_eq!(sessions.try_lock().unwrap().len(), 50);
}

#[test]
fn request_with_a_garbage_cookie_is_sent_to_sign_in() {
    let sessions = empty_sessions();
    add_user_to_sessions(text("u-42"), sessions.clone()).unwrap();
    let verdict = auth_cookie_session(Some(text("garbage")), sessions);
    assert_eq!(verdict, Err(FailureCategory::Unauthenticated));
    let category = verdict.unwrap_err();
    assert_eq!(redirect_target(Failure::Classified(category)), "/auth");
}

#[test]
fn register_session_succeeds_exactly_when_the_table_is_at_hand() {
    let mut table = SessionTable::new();
    table.insert(text("old"), text("u-0"));
    assert_eq!(
        register_session(Some(&mut table), text("tok"), text("u-1")),
        Ok(text("tok"))
    );
    assert_eq!(table.len(), 2);
    assert_eq!(table.lookup(&text("tok")), Some(&text("u-1")));
    assert_eq!(table.lookup(&text("old")), Some(&text("u-0")));
    assert_eq!(
        register_session(None, text("tok-2"), text("u-2")),
        Err(LockUnavailable)
    );
    assert_eq!(table.len(), 2);
    assert_eq!(table.lookup(&text("tok-2")), None);
}

#[test]
fn register_session_writes_through_a_held_lock() {
    let sessions = empty_sessions();
    {
        let mut held = sessions.try_lock().unwrap();
        assert_eq!(
            register_session(Some(&mut held), text("tok"), text("u-1")),
            Ok(text("tok"))
        );
    }
    assert_eq!(
        auth_cookie_session(Some(text("tok")), sessions),
        Ok(text("u-1"))
    );
}

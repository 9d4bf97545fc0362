//! What becomes of a login or a registration once the backend has answered.

use crate::authenticator::{add_user_to_sessions, is_lower_hex, is_session_id, SessionIdT, UserSessions};
use crate::error::{redirect_path, Failure, FailureCategory, LockUnavailable};
use crate::models::PublicUserWithId;
use vstd::prelude::*;
use vstd::string::*;

verus! {

/// The status with which the backend reports success.
pub const STATUS_OK: u16 = 200;

/// The status with which the backend refuses credentials.
pub const STATUS_UNAUTHORIZED: u16 = 401;

/// The status with which the backend reports an unknown user.
pub const STATUS_NOT_FOUND: u16 = 404;

/// The status with which the backend reports an address already in use.
pub const STATUS_CONFLICT: u16 = 409;

/// The status of the response that follows a successful sign-in.
pub const STATUS_MOVED_PERMANENTLY: u16 = 301;

/// Where a signed-in user is sent.
pub const HOME_PATH: &'static str = "/home";

/// The name of the cookie that carries the session token.
pub const SESSION_COOKIE: &'static str = "session_id";

/// How a call to the backend ended.
#[derive(Debug)]
pub enum UpstreamOutcome {
    /// The backend could not be reached, or the exchange broke off.
    TransportFailure,
    /// The backend answered with `status`. `user` is the user that the body
    /// of the answer describes; it is `None` when the body was not read or
    /// does not describe one.
    Replied { status: u16, user: Option<PublicUserWithId> },
}

/// Whether the body of an answer with `status` is expected to describe a
/// user.
pub fn expects_user(status: u16) -> (expected: bool)
    ensures
        expected == (status == STATUS_OK),
{
    status == STATUS_OK
}

/// What a login attempt comes to: the user who signed in, or the failure.
pub open spec fn login_verdict(outcome: UpstreamOutcome) -> Result<PublicUserWithId, Failure> {
    match outcome {
        UpstreamOutcome::TransportFailure => Err(
            Failure::Classified(FailureCategory::InternalFailure),
        ),
        UpstreamOutcome::Replied { status, user } => if status == STATUS_OK {
            match user {
                Some(user) => Ok(user),
                None => Err(Failure::Unclassified),
            }
        } else if status == STATUS_NOT_FOUND {
            Err(Failure::Classified(FailureCategory::UserNotFound))
        } else if status == STATUS_UNAUTHORIZED {
            Err(Failure::Classified(FailureCategory::InvalidCredentials))
        } else {
            Err(Failure::Classified(FailureCategory::InternalFailure))
        },
    }
}

/// What a registration attempt comes to: the user who was registered, or
/// the failure.
pub open spec fn register_verdict(outcome: UpstreamOutcome) -> Result<PublicUserWithId, Failure> {
    match outcome {
        UpstreamOutcome::TransportFailure => Err(
            Failure::Classified(FailureCategory::InternalFailure),
        ),
        UpstreamOutcome::Replied { status, user } => if status == STATUS_OK {
            match user {
                Some(user) => Ok(user),
                None => Err(Failure::Unclassified),
            }
        } else if status == STATUS_CONFLICT {
            Err(Failure::Classified(FailureCategory::UserAlreadyExists))
        } else {
            Err(Failure::Classified(FailureCategory::InternalFailure))
        },
    }
}

/// Classifies the backend's answer to a login attempt.
pub fn classify_login(outcome: UpstreamOutcome) -> (verdict: Result<PublicUserWithId, Failure>)
    ensures
        verdict == login_verdict(outcome),
{
    match outcome {
        UpstreamOutcome::Replied { status, user } => {
            if status == STATUS_OK {
                match user {
                    Some(user) => Ok(user),
                    None => Err(Failure::Unclassified),
                }
            } else if status == STATUS_NOT_FOUND {
                Err(Failure::Classified(FailureCategory::UserNotFound))
            } else if status == STATUS_UNAUTHORIZED {
                Err(Failure::Classified(FailureCategory::InvalidCredentials))
            } else {
                Err(Failure::Classified(FailureCategory::InternalFailure))
            }
        },
        UpstreamOutcome::TransportFailure => Err(
            Failure::Classified(FailureCategory::InternalFailure),
        ),
    }
}

/// Classifies the backend's answer to a registration attempt.
pub fn classify_register(outcome: UpstreamOutcome) -> (verdict: Result<PublicUserWithId, Failure>)
    ensures
        verdict == register_verdict(outcome),
{
    match outcome {
        UpstreamOutcome::Replied { status, user } => {
            if status == STATUS_OK {
                match user {
                    Some(new_user) => Ok(new_user),
                    None => Err(Failure::Unclassified),
                }
            } else if status == STATUS_CONFLICT {
                Err(Failure::Classified(FailureCategory::UserAlreadyExists))
            } else {
                Err(Failure::Classified(FailureCategory::InternalFailure))
            }
        },
        UpstreamOutcome::TransportFailure => Err(
            Failure::Classified(FailureCategory::InternalFailure),
        ),
    }
}

/// A character that may stand in the value of a response header: a tab, or
/// anything from the space upwards but the delete character.
pub open spec fn is_header_char(c: char) -> bool {
    c == '\t' || (' ' <= c && c != '\x7f')
}

/// Text that may stand as the value of a response header.
pub open spec fn is_header_text(text: Seq<char>) -> bool {
    forall|i: int| 0 <= i < text.len() ==> is_header_char(#[trigger] text[i])
}

/// Whether `text` may stand as the value of a response header.
pub fn header_text_ok(text: &str) -> (ok: bool)
    ensures
        ok == is_header_text(text@),
{
    let mut ok = true;
    for c in it: text.chars()
        invariant
            it.seq() == text@,
            ok == (forall|i: int| 0 <= i < it.index() ==> is_header_char(#[trigger] text@[i])),
    {
        if !(c == '\t' || (c >= ' ' && c != '\x7f')) {
            ok = false;
        }
    }
    ok
}

/// The value of the `set-cookie` header that hands `session_id` to the
/// browser: valid for the whole site, for 34560 seconds.
pub open spec fn cookie_text(session_id: Seq<char>) -> Seq<char> {
    "session_id="@ + session_id + "; path=/; max-age=34560"@
}

/// The value of the `set-cookie` header that hands `session_id` to the
/// browser.
pub fn session_cookie(session_id: &str) -> (cookie: String)
    ensures
        cookie@ == cookie_text(session_id@),
{
    String::from_str("session_id=").concat(session_id).concat("; path=/; max-age=34560")
}

/// The response to a successful sign-in: a redirect to the home page that
/// sets the session cookie.
#[derive(Debug)]
pub struct SessionReply {
    /// The token of the session that was established.
    pub session_id: SessionIdT,
    pub status: u16,
    /// The value of the `Location` header.
    pub location: &'static str,
    /// The value of the `HX-Location` header.
    pub hx_location: &'static str,
    /// The value of the `set-cookie` header.
    pub set_cookie: String,
}

/// Whether `reply` is the sign-in response for the session it names.
pub open spec fn is_session_reply(reply: SessionReply) -> bool {
    &&& reply.status == STATUS_MOVED_PERMANENTLY
    &&& reply.location@ == HOME_PATH@
    &&& reply.hx_location@ == HOME_PATH@
    &&& reply.set_cookie@ == cookie_text(reply.session_id@)
}

/// How a sign-in ends once a session was asked for: with the token of the
/// session, or with the failure that takes the place of the response.
pub open spec fn session_outcome(issued: Result<SessionIdT, LockUnavailable>) -> Result<
    Seq<char>,
    Failure,
> {
    match issued {
        Err(_) => Err(Failure::Classified(FailureCategory::InternalFailure)),
        Ok(session_id) => if is_header_text(cookie_text(session_id@)) {
            Ok(session_id@)
        } else {
            Err(Failure::Classified(FailureCategory::ResponseBuildFailure))
        },
    }
}

/// Whether `ending` is the sign-in response for the session `expected`
/// names, or the failure it names.
pub open spec fn ends_as(ending: Result<SessionReply, Failure>, expected: Result<
    Seq<char>,
    Failure,
>) -> bool {
    match expected {
        Ok(session_id) => ending matches Ok(reply) && reply.session_id@ == session_id
            && is_session_reply(reply),
        Err(failure) => ending == Err::<SessionReply, Failure>(failure),
    }
}

/// Builds the response that ends a sign-in.
///
/// `issued` is what registering the session gave. A busy session table ends
/// the sign-in as an internal failure; a token that cannot be put into a
/// header ends it as a failure to build the response.
pub fn conclude_session(issued: Result<SessionIdT, LockUnavailable>) -> (ending: Result<
    SessionReply,
    Failure,
>)
    ensures
        ends_as(ending, session_outcome(issued)),
{
    match issued {
        Ok(new_session_id) => {
            let set_cookie = session_cookie(new_session_id.as_str());
            if header_text_ok(set_cookie.as_str()) {
                Ok(
                    SessionReply {
                        session_id: new_session_id,
                        status: STATUS_MOVED_PERMANENTLY,
                        location: HOME_PATH,
                        hx_location: HOME_PATH,
                        set_cookie,
                    },
                )
            } else {
                Err(Failure::Classified(FailureCategory::ResponseBuildFailure))
            }
        },
        Err(unavailable) => Err(Failure::Classified(unavailable.category())),
    }
}

/// The cookie of a well-formed session token can always be put into a
/// header.
pub proof fn lemma_session_cookie_is_header_text(session_id: Seq<char>)
    requires
        is_session_id(session_id),
    ensures
        is_header_text(cookie_text(session_id)),
{
    reveal_strlit("session_id=");
    reveal_strlit("; path=/; max-age=34560");
    let text = cookie_text(session_id);
    assert forall|i: int| 0 <= i < text.len() implies is_header_char(#[trigger] text[i]) by {
        if i < 11 {
            assert(text[i] == "session_id="@[i]);
        } else if i < 47 {
            assert(text[i] == session_id[i - 11]);
            if session_id[i - 11] != '-' {
                assert(is_lower_hex(session_id[i - 11]));
            }
        } else {
            assert(text[i] == "; path=/; max-age=34560"@[i - 47]);
        }
    }
}

/// What a sign-in ends in, given what the backend's answer came to.
///
/// A failure of the backend call is passed on as it is. Otherwise the
/// sign-in ends with the response for some well-formed session token, or,
/// when the session table was busy, as an internal failure.
pub open spec fn sign_in_ending(
    verdict: Result<PublicUserWithId, Failure>,
    ending: Result<SessionReply, Failure>,
) -> bool {
    match verdict {
        Err(failure) => ending == Err::<SessionReply, Failure>(failure),
        Ok(_) => match ending {
            Ok(reply) => is_session_id(reply.session_id@) && is_session_reply(reply),
            Err(failure) => failure == Failure::Classified(FailureCategory::InternalFailure),
        },
    }
}

/// Ends a login attempt: classifies the backend's answer and, for a user who
/// signed in, establishes a session and builds the response that carries its
/// cookie.
pub fn handle_login(outcome: UpstreamOutcome, sessions: UserSessions) -> (ending: Result<
    SessionReply,
    Failure,
>)
    ensures
        sign_in_ending(login_verdict(outcome), ending),
{
    match classify_login(outcome) {
        Ok(user) => {
            let issued = add_user_to_sessions(user.id, sessions);
            proof {
                if issued is Ok {
                    lemma_session_cookie_is_header_text(issued->Ok_0@);
                }
            }
            conclude_session(issued)
        },
        Err(failure) => Err(failure),
    }
}

/// Ends a registration attempt: classifies the backend's answer and, for a
/// user who was registered, establishes a session and builds the response
/// that carries its cookie.
pub fn handle_register(outcome: UpstreamOutcome, sessions: UserSessions) -> (ending: Result<
    SessionReply,
    Failure,
>)
    ensures
        sign_in_ending(register_verdict(outcome), ending),
{
    match classify_register(outcome) {
        Ok(new_user) => {
            let issued = add_user_to_sessions(new_user.id, sessions);
            proof {
                if issued is Ok {
                    lemma_session_cookie_is_header_text(issued->Ok_0@);
                }
            }
            conclude_session(issued)
        },
        Err(failure) => Err(failure),
    }
}

/// A conflict reported on a registration counts as a user who already
/// exists, whatever the body of the answer, and sends the client to the
/// page for an address that is taken.
pub proof fn law_conflict_on_registration(user: Option<PublicUserWithId>)
    ensures
        register_verdict(UpstreamOutcome::Replied { status: STATUS_CONFLICT, user }) == Err::<
            PublicUserWithId,
            Failure,
        >(Failure::Classified(FailureCategory::UserAlreadyExists)),
        redirect_path(Failure::Classified(FailureCategory::UserAlreadyExists))
            == "/error/email-taken"@,
{
}

/// A refusal reported on a login counts as invalid credentials, whatever
/// the body of the answer, and sends the client to the page for a wrong
/// password.
pub proof fn law_unauthorized_on_login(user: Option<PublicUserWithId>)
    ensures
        login_verdict(UpstreamOutcome::Replied { status: STATUS_UNAUTHORIZED, user }) == Err::<
            PublicUserWithId,
            Failure,
        >(Failure::Classified(FailureCategory::InvalidCredentials)),
        redirect_path(Failure::Classified(FailureCategory::InvalidCredentials))
            == "/error/incorrect-password"@,
{
}

/// An unknown user reported on a login counts as a user who was not found,
/// whatever the body of the answer, and sends the client to the page for
/// what does not exist.
pub proof fn law_not_found_on_login(user: Option<PublicUserWithId>)
    ensures
        login_verdict(UpstreamOutcome::Replied { status: STATUS_NOT_FOUND, user }) == Err::<
            PublicUserWithId,
            Failure,
        >(Failure::Classified(FailureCategory::UserNotFound)),
        redirect_path(Failure::Classified(FailureCategory::UserNotFound)) == "/error/not-found"@,
{
}

} // verus!

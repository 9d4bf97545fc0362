//! Failure categories and the redirect each of them ends in.

use vstd::prelude::*;

verus! {

/// Why a step of the authenticated-request pipeline could not complete.
#[derive(Debug, Clone, Copy, PartialEq, Eq, Structural)]
pub enum FailureCategory {
    /// No session token was presented, or the token is not registered.
    Unauthenticated,
    /// The backend refused the credentials of a login attempt.
    InvalidCredentials,
    /// The backend knows no such user.
    UserNotFound,
    /// The backend already has a user under the address being registered.
    UserAlreadyExists,
    /// The response of the success path could not be assembled.
    ResponseBuildFailure,
    /// The request body could not be read, or the method is not allowed.
    BadRequest,
    /// The session table was busy, the backend could not be reached, or the
    /// backend answered with a status nothing else accounts for.
    InternalFailure,
    /// The requested route does not exist.
    NotFound,
}

/// A failed request: either one of the named categories, or a failure that
/// has none.
#[derive(Debug, Clone, Copy, PartialEq, Eq, Structural)]
pub enum Failure {
    Classified(FailureCategory),
    Unclassified,
}

/// Exclusive access to the session table could not be obtained.
#[derive(Debug, Clone, Copy, PartialEq, Eq, Structural)]
pub struct LockUnavailable;

impl LockUnavailable {
    /// The category under which a busy session table reaches the client.
    pub fn category(&self) -> (category: FailureCategory)
        ensures
            category == FailureCategory::InternalFailure,
    {
        FailureCategory::InternalFailure
    }
}

/// Where the sign-in pages live.
pub const AUTH_PATH: &'static str = "/auth";

pub const NOT_FOUND_PATH: &'static str = "/error/not-found";

pub const EMAIL_TAKEN_PATH: &'static str = "/error/email-taken";

pub const INCORRECT_PASSWORD_PATH: &'static str = "/error/incorrect-password";

pub const SERVER_ERROR_PATH: &'static str = "/error/server-error";

pub const BAD_REQUEST_PATH: &'static str = "/error/bad-request";

/// The header that repeats the redirect target for clients that do not
/// follow redirects.
pub const HX_LOCATION: &'static str = "HX-Location";

/// The path a client is sent to for each category.
pub open spec fn category_path(category: FailureCategory) -> Seq<char> {
    match category {
        FailureCategory::NotFound => NOT_FOUND_PATH@,
        FailureCategory::Unauthenticated => AUTH_PATH@,
        FailureCategory::UserAlreadyExists => EMAIL_TAKEN_PATH@,
        FailureCategory::UserNotFound => NOT_FOUND_PATH@,
        FailureCategory::InvalidCredentials => INCORRECT_PASSWORD_PATH@,
        FailureCategory::InternalFailure => SERVER_ERROR_PATH@,
        FailureCategory::ResponseBuildFailure => SERVER_ERROR_PATH@,
        FailureCategory::BadRequest => BAD_REQUEST_PATH@,
    }
}

/// The path a client is sent to for each failure; one without a category
/// ends on the server-error page.
pub open spec fn redirect_path(failure: Failure) -> Seq<char> {
    match failure {
        Failure::Classified(category) => category_path(category),
        Failure::Unclassified => SERVER_ERROR_PATH@,
    }
}

/// The redirect target of `failure`.
pub fn redirect_target(failure: Failure) -> (path: &'static str)
    ensures
        path@ == redirect_path(failure),
{
    match failure {
        Failure::Classified(FailureCategory::NotFound) => NOT_FOUND_PATH,
        Failure::Classified(FailureCategory::Unauthenticated) => AUTH_PATH,
        Failure::Classified(FailureCategory::UserAlreadyExists) => EMAIL_TAKEN_PATH,
        Failure::Classified(FailureCategory::UserNotFound) => NOT_FOUND_PATH,
        Failure::Classified(FailureCategory::InvalidCredentials) => INCORRECT_PASSWORD_PATH,
        Failure::Classified(FailureCategory::InternalFailure) => SERVER_ERROR_PATH,
        Failure::Classified(FailureCategory::ResponseBuildFailure) => SERVER_ERROR_PATH,
        Failure::Classified(FailureCategory::BadRequest) => BAD_REQUEST_PATH,
        Failure::Unclassified => SERVER_ERROR_PATH,
    }
}

/// What a rejected request carries, one flag for each cause that the
/// redirect depends on. Several may be set at once when more than one route
/// turned the request down.
#[derive(Debug, Clone, Copy, PartialEq, Eq, Structural)]
pub struct RejectionCauses {
    /// No route matched.
    pub not_found: bool,
    /// A protected route found no valid session.
    pub unauthorized: bool,
    /// A registration met an address that is already taken.
    pub existing_user: bool,
    /// A login named a user that does not exist.
    pub user_not_exist: bool,
    /// A login carried the wrong password.
    pub incorrect_password: bool,
    /// The server could not do its own part.
    pub internal_problem: bool,
    /// The response of a success path could not be assembled.
    pub build_response: bool,
    /// The request body could not be deserialized.
    pub body_deserialize: bool,
    /// The route exists, but not for this method.
    pub method_not_allowed: bool,
}

/// The failure a rejected request counts as: the first cause that is set,
/// in the order below, decides.
pub open spec fn rejection_failure(causes: RejectionCauses) -> Failure {
    if causes.not_found {
        Failure::Classified(FailureCategory::NotFound)
    } else if causes.unauthorized {
        Failure::Classified(FailureCategory::Unauthenticated)
    } else if causes.existing_user {
        Failure::Classified(FailureCategory::UserAlreadyExists)
    } else if causes.user_not_exist {
        Failure::Classified(FailureCategory::UserNotFound)
    } else if causes.incorrect_password {
        Failure::Classified(FailureCategory::InvalidCredentials)
    } else if causes.internal_problem {
        Failure::Classified(FailureCategory::InternalFailure)
    } else if causes.build_response {
        Failure::Classified(FailureCategory::ResponseBuildFailure)
    } else if causes.body_deserialize {
        Failure::Classified(FailureCategory::BadRequest)
    } else if causes.method_not_allowed {
        Failure::Classified(FailureCategory::BadRequest)
    } else {
        Failure::Unclassified
    }
}

impl RejectionCauses {
    /// A rejection with no cause set.
    pub fn none() -> (causes: Self)
        ensures
            causes == (RejectionCauses {
                not_found: false,
                unauthorized: false,
                existing_user: false,
                user_not_exist: false,
                incorrect_password: false,
                internal_problem: false,
                build_response: false,
                body_deserialize: false,
                method_not_allowed: false,
            }),
    {
        RejectionCauses {
            not_found: false,
            unauthorized: false,
            existing_user: false,
            user_not_exist: false,
            incorrect_password: false,
            internal_problem: false,
            build_response: false,
            body_deserialize: false,
            method_not_allowed: false,
        }
    }

    /// The causes of a request that failed with `failure` and nothing else.
    pub fn of(failure: Failure) -> (causes: Self)
        ensures
            rejection_failure(causes) == failure,
    {
        let mut causes = RejectionCauses::none();
        match failure {
            Failure::Classified(FailureCategory::NotFound) => causes.not_found = true,
            Failure::Classified(FailureCategory::Unauthenticated) => causes.unauthorized = true,
            Failure::Classified(FailureCategory::UserAlreadyExists) => causes.existing_user = true,
            Failure::Classified(FailureCategory::UserNotFound) => causes.user_not_exist = true,
            Failure::Classified(FailureCategory::InvalidCredentials) => {
                causes.incorrect_password = true
            },
            Failure::Classified(FailureCategory::InternalFailure) => causes.internal_problem = true,
            Failure::Classified(FailureCategory::ResponseBuildFailure) => {
                causes.build_response = true
            },
            Failure::Classified(FailureCategory::BadRequest) => causes.body_deserialize = true,
            Failure::Unclassified => {},
        }
        causes
    }

    /// The failure this rejection counts as.
    pub fn failure(&self) -> (failure: Failure)
        ensures
            failure == rejection_failure(*self),
    {
        if self.not_found {
            Failure::Classified(FailureCategory::NotFound)
        } else if self.unauthorized {
            Failure::Classified(FailureCategory::Unauthenticated)
        } else if self.existing_user {
            Failure::Classified(FailureCategory::UserAlreadyExists)
        } else if self.user_not_exist {
            Failure::Classified(FailureCategory::UserNotFound)
        } else if self.incorrect_password {
            Failure::Classified(FailureCategory::InvalidCredentials)
        } else if self.internal_problem {
            Failure::Classified(FailureCategory::InternalFailure)
        } else if self.build_response {
            Failure::Classified(FailureCategory::ResponseBuildFailure)
        } else if self.body_deserialize || self.method_not_allowed {
            Failure::Classified(FailureCategory::BadRequest)
        } else {
            Failure::Unclassified
        }
    }
}

/// A redirect response: the target of the `Location` header, and the same
/// target once more for the [`HX_LOCATION`] header.
#[derive(Debug, Clone, Copy)]
pub struct Redirect {
    pub location: &'static str,
    pub hx_location: &'static str,
}

/// Turns a rejected request into the redirect that answers it.
pub fn redirect_on_reject(err: RejectionCauses) -> (redirect: Redirect)
    ensures
        redirect.location@ == redirect_path(rejection_failure(err)),
        redirect.hx_location@ == redirect.location@,
{
    let redirect_path = redirect_target(err.failure());
    Redirect { location: redirect_path, hx_location: redirect_path }
}

/// An error as it is shown to the user: a status code, a short message and
/// what to do next.
#[derive(Debug, Clone)]
pub struct ErrorMessage {
    pub code: u16,
    pub message: &'static str,
    pub instructions: Vec<&'static str>,
}

} // verus!

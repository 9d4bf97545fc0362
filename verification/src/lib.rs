//! Session authentication for a browser front end that proxies user actions
//! to a remote content-analysis service.

use vstd::prelude::*;
use vstd::string::*;

pub mod app_config;
pub mod authenticator;
pub mod endpoints;
pub mod error;
pub mod error_pages;
pub mod handlers;
pub mod models;
pub mod pages;
pub mod session;
pub mod templates;

verus! {

/// Directory, relative to the working directory, under which the templates
/// and static assets live.
pub const PROJECT_SOURCE: &'static str = "warptest/src";

/// A fixed greeting, used to check that the library is linked.
pub fn warptest_check() -> (greeting: String)
    ensures
        greeting@ == "Hello from Warptest"@,
{
    String::from_str("Hello from Warptest")
}

/// Whether `path` may be appended to [`PROJECT_SOURCE`]: it is empty or
/// starts with a slash.
pub open spec fn is_project_path(path: Seq<char>) -> bool {
    path.len() > 0 ==> path[0] == '/'
}

/// The location of `path` inside the project's source directory.
pub fn project(path: &str) -> (full: String)
    requires
        is_project_path(path@),
    ensures
        full@ == PROJECT_SOURCE@ + path@,
{
    String::from_str(PROJECT_SOURCE).concat(path)
}

} // verus!

//! The addresses of the backend's services.

use crate::app_config::AppConfigT;
use crate::models::NewsContent;
use vstd::prelude::*;
use vstd::string::*;

verus! {

/// The query parameter under which the browser names the article to
/// analyse.
pub const URL_QUERY_KEY: &'static str = "url";

/// The query parameter under which the backend expects that address.
pub const NEWS_URL_PARAM: &'static str = "news_url";

/// What is sent to the backend in place of an address when the browser gave
/// none.
pub const INVALID_QUERY: &'static str = "invalid query key!";

/// `base` followed by the path at which users are registered.
pub open spec fn register_address(base: Seq<char>) -> Seq<char> {
    base + "/users"@
}

/// `base` followed by the path at which users sign in.
pub open spec fn login_address(base: Seq<char>) -> Seq<char> {
    base + "/users/login"@
}

/// `base` followed by the path at which `user_id` has an article fetched
/// and analysed.
pub open spec fn parse_news_address(base: Seq<char>, user_id: Seq<char>) -> Seq<char> {
    base + "/"@ + user_id + "/news-contents/parse-news-url"@
}

/// `base` followed by the path of the articles that `user_id` has analysed.
pub open spec fn history_address(base: Seq<char>, user_id: Seq<char>) -> Seq<char> {
    base + "/users/"@ + user_id + "/history"@
}

/// `base` followed by the path and query at which `user_id` has the article
/// `content_id` summarised.
pub open spec fn summarizer_address(
    base: Seq<char>,
    user_id: Seq<char>,
    content_id: Seq<char>,
) -> Seq<char> {
    base + "/"@ + user_id + "/news_contents/summarize-news-content-stream?news_content_id="@
        + content_id
}

/// Where a registration is posted.
pub fn register_endpoint(config: &AppConfigT) -> (address: String)
    ensures
        address@ == register_address(config.local_backend_api@),
{
    config.local_backend_api.clone().concat("/users")
}

/// Where a login is posted.
pub fn login_endpoint(config: &AppConfigT) -> (address: String)
    ensures
        address@ == login_address(config.local_backend_api@),
{
    config.local_backend_api.clone().concat("/users/login")
}

/// Where `user_id` posts an address to have the article behind it analysed.
pub fn parse_news_endpoint(config: &AppConfigT, user_id: &str) -> (address: String)
    ensures
        address@ == parse_news_address(config.local_backend_api@, user_id@),
{
    config.local_backend_api.clone().concat("/").concat(user_id).concat(
        "/news-contents/parse-news-url",
    )
}

/// Where the articles that `user_id` has analysed are listed.
pub fn history_endpoint(config: &AppConfigT, user_id: &str) -> (address: String)
    ensures
        address@ == history_address(config.local_backend_api@, user_id@),
{
    config.local_backend_api.clone().concat("/users/").concat(user_id).concat("/history")
}

/// Where the summary of `content` streams from, for `user_id`.
pub fn summarizer_endpoint(config: &AppConfigT, user_id: &str, content: &NewsContent) -> (address:
    String)
    requires
        content.id is Some,
    ensures
        address@ == summarizer_address(config.local_backend_api@, user_id@, content.id->Some_0@),
{
    let content_id = content.id.as_ref().unwrap();
    config.local_backend_api.clone().concat("/").concat(user_id).concat(
        "/news_contents/summarize-news-content-stream?news_content_id=",
    ).concat(content_id.as_str())
}

/// The address to analyse, as it is passed on to the backend: the one the
/// browser gave under [`URL_QUERY_KEY`], or [`INVALID_QUERY`] when it gave
/// none.
pub fn news_url_query(url: Option<&String>) -> (news_url: String)
    ensures
        news_url@ == match url {
            Some(url) => url@,
            None => INVALID_QUERY@,
        },
{
    match url {
        Some(url) => url.clone(),
        None => String::from_str(INVALID_QUERY),
    }
}

} // verus!

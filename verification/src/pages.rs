//! What each page is rendered from: the template and the values handed to
//! it.

use crate::app_config::AppConfigT;
use crate::endpoints::{summarizer_address, summarizer_endpoint};
use crate::models::{NewsContent, UserHistoryT, UserIdT};
use vstd::prelude::*;
use vstd::string::*;

verus! {

/// The template of the sign-in pages.
pub const AUTH_PAGE_TEMPLATE: &'static str = "auth_page";

/// The template of the home page.
pub const HOME_PAGE_TEMPLATE: &'static str = "home_page";

/// The template that shows an analysed article.
pub const ANALYZE_RESULT_TEMPLATE: &'static str = "analyze_result_component";

/// The template that shows why an article could not be analysed.
pub const ANALYZE_RESULT_ERROR_TEMPLATE: &'static str = "analyze_result_error_component";

/// The template that lists the articles a user has analysed.
pub const HISTORY_DRAWER_TEMPLATE: &'static str = "history_drawer_component";

/// A sign-in page: its title, and the template of the form it embeds.
#[derive(Debug, Clone, Copy)]
pub struct AuthPage {
    pub title: &'static str,
    pub child_component: &'static str,
}

/// The page on which a user registers.
pub fn register_page() -> (page: AuthPage)
    ensures
        page.title@ == "AUTH Register"@,
        page.child_component@ == "register_page"@,
{
    AuthPage { title: "AUTH Register", child_component: "register_page" }
}

/// The page on which a user logs in.
pub fn login_page() -> (page: AuthPage)
    ensures
        page.title@ == "Auth Login"@,
        page.child_component@ == "login_page"@,
{
    AuthPage { title: "Auth Login", child_component: "login_page" }
}

/// The home page of a signed-in user.
#[derive(Debug)]
pub struct HomePage {
    pub title: &'static str,
    pub subtitle: &'static str,
    pub user_id: UserIdT,
}

/// The home page of `user_id`.
pub fn home_page(user_id: UserIdT) -> (page: HomePage)
    ensures
        page.title@ == "Warptest"@,
        page.subtitle@ == "testing some warp app"@,
        page.user_id == user_id,
{
    HomePage { title: "Warptest", subtitle: "testing some warp app", user_id }
}

/// Why the backend could not analyse an article: the failure, and what
/// caused it.
#[derive(Debug)]
pub struct AnalysisError {
    pub error: String,
    pub message: String,
}

/// What is shown after an article was sent for analysis.
#[derive(Debug)]
pub enum AnalysisView {
    /// The article, and the address its summary streams from.
    Analyzed { news_content: NewsContent, summarizer_endpoint: String },
    /// The failure, its cause, and what the user may try next.
    Failed { error: String, message: String, instructions: Vec<&'static str> },
}

impl AnalysisView {
    /// The template this view is rendered with.
    pub fn template(&self) -> (name: &'static str)
        ensures
            name@ == match self {
                AnalysisView::Analyzed { .. } => ANALYZE_RESULT_TEMPLATE@,
                AnalysisView::Failed { .. } => ANALYZE_RESULT_ERROR_TEMPLATE@,
            },
    {
        match self {
            AnalysisView::Analyzed { .. } => ANALYZE_RESULT_TEMPLATE,
            AnalysisView::Failed { .. } => ANALYZE_RESULT_ERROR_TEMPLATE,
        }
    }
}

/// Whether `view` shows the outcome `news_content` of an analysis that
/// `user_id` asked for from the backend at `base`.
pub open spec fn shows_analysis(
    view: AnalysisView,
    news_content: Result<NewsContent, AnalysisError>,
    user_id: Seq<char>,
    base: Seq<char>,
) -> bool {
    match news_content {
        Ok(content) => {
            &&& view matches AnalysisView::Analyzed { news_content: shown, summarizer_endpoint }
            &&& shown == content
            &&& summarizer_endpoint@ == summarizer_address(base, user_id, content.id->Some_0@)
        },
        Err(e) => {
            &&& view matches AnalysisView::Failed { error, message, instructions }
            &&& error == e.error
            &&& message == e.message
            &&& instructions@.len() == 3
            &&& instructions@[0]@ == "Pastikan url mengarah ke suatu media berita"@
            &&& instructions@[1]@ == "Coba gunakan media berita mainstream"@
            &&& instructions@[2]@ == "Coba hubungi pihak pengembang"@
        },
    }
}

/// Chooses what to show after an article was sent for analysis on behalf of
/// `user_id`.
pub fn render_result(
    news_content: Result<NewsContent, AnalysisError>,
    user_id: &str,
    app_config: &AppConfigT,
) -> (view: AnalysisView)
    requires
        news_content matches Ok(content) ==> content.id is Some,
    ensures
        shows_analysis(view, news_content, user_id@, app_config.local_backend_api@),
{
    match news_content {
        Ok(content) => {
            let summarizer_service_endpoint = summarizer_endpoint(app_config, user_id, &content);
            AnalysisView::Analyzed {
                news_content: content,
                summarizer_endpoint: summarizer_service_endpoint,
            }
        },
        Err(e) => AnalysisView::Failed {
            error: e.error,
            message: e.message,
            instructions: vec![
                "Pastikan url mengarah ke suatu media berita",
                "Coba gunakan media berita mainstream",
                "Coba hubungi pihak pengembang",
            ],
        },
    }
}

/// What the history drawer shows.
#[derive(Debug)]
pub enum HistoryView {
    /// The articles the backend reported, if any.
    Listed { history: Option<Vec<NewsContent>> },
    /// The history could not be had.
    Failed { error: &'static str },
}

/// Chooses what the history drawer shows. `user_history` is `None` when the
/// backend could not be asked or its answer could not be read.
pub fn render_history_list(user_history: Option<UserHistoryT>) -> (view: HistoryView)
    ensures
        match user_history {
            Some(h) => view matches HistoryView::Listed { history } && history == h.0,
            None => view matches HistoryView::Failed { error } && error@ == "some error!"@,
        },
{
    match user_history {
        Some(h) => HistoryView::Listed { history: h.0 },
        None => HistoryView::Failed { error: "some error!" },
    }
}

} // verus!

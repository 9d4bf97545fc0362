use warptest::app_config::{load_config, AppConfigT};
use warptest::models::{NewsContent, UserHistoryT};
use warptest::pages::{
    home_page, login_page, register_page, render_history_list, render_result, AnalysisError,
    AnalysisView, HistoryView, ANALYZE_RESULT_ERROR_TEMPLATE, ANALYZE_RESULT_TEMPLATE,
    AUTH_PAGE_TEMPLATE, HISTORY_DRAWER_TEMPLATE, HOME_PAGE_TEMPLATE,
};
use warptest::templates::template_files;

fn text(s: &str) -> String {
    s.to_string()
}

fn article(id: &str, title: &str) -> NewsContent {
    let mut news = NewsContent::blank();
    news.id = Some(text(id));
    news.title = text(title);
    news
}

#[test]
fn every_page_template_is_registered() {
    let registered: Vec<&str> = template_files().iter().map(|file| file.name).collect();
    for name in [
        AUTH_PAGE_TEMPLATE,
        HOME_PAGE_TEMPLATE,
        ANALYZE_RESULT_TEMPLATE,
        ANALYZE_RESULT_ERROR_TEMPLATE,
        HISTORY_DRAWER_TEMPLATE,
        register_page().child_component,
        login_page().child_component,
    ] {
        assert!(registered.contains(&name), "{name}");
    }
    assert_eq!(AUTH_PAGE_TEMPLATE, "auth_page");
    assert_eq!(HOME_PAGE_TEMPLATE, "home_page");
    assert_eq!(ANALYZE_RESULT_TEMPLATE, "analyze_result_component");
    assert_eq!(
        ANALYZE_RESULT_ERROR_TEMPLATE,
        "analyze_result_error_component"
    );
    assert_eq!(HISTORY_DRAWER_TEMPLATE, "history_drawer_component");
}

#[test]
fn sign_in_pages_embed_their_forms() {
    let page = register_page();
    assert_eq!(page.title, "AUTH Register");
    assert_eq!(page.child_component, "register_page");
    let page = login_page();
    assert_eq!(page.title, "Auth Login");
    assert_eq!(page.child_component, "login_page");
}

#[test]
fn home_page_names_its_user() {
    let page = home_page(text("u-42"));
    assert_eq!(page.title, "Warptest");
    assert_eq!(page.subtitle, "testing some warp app");
    assert_eq!(page.user_id, "u-42");
    assert_eq!(home_page(text("")).user_id, "");
}

#[test]
fn analysed_article_is_shown_with_its_summary_address() {
    let config = load_config();
    let view = render_result(Ok(article("n-7", "Headline")), "u-42", &config);
    assert_eq!(view.template(), "analyze_result_component");
    match view {
        AnalysisView::Analyzed {
            news_content,
            summarizer_endpoint,
        } => {
            assert_eq!(news_content.id, Some(text("n-7")));
            assert_eq!(news_content.title, "Headline");
            assert_eq!(news_content.authors, "");
            assert_eq!(
                summarizer_endpoint,
                "http://localhost:8000/api/v0/u-42/news_contents/summarize-news-content-stream?news_content_id=n-7"
            );
        }
        AnalysisView::Failed { .. } => panic!("expected the article"),
    }
}

#[test]
fn analysed_article_follows_the_configured_backend() {
    let config = AppConfigT {
        local_backend_api: text("https://api.example"),
        local_default_user: text(""),
        remote_backend_api: text("unused"),
        remote_default_user: text(""),
    };
    match render_result(Ok(article("", "")), "", &config) {
        AnalysisView::Analyzed {
            summarizer_endpoint,
            ..
        } => assert_eq!(
            summarizer_endpoint,
            "https://api.example//news_contents/summarize-news-content-stream?news_content_id="
        ),
        AnalysisView::Failed { .. } => panic!("expected the article"),
    }
}

#[test]
fn failed_analysis_is_shown_with_hints() {
    let config = load_config();
    let failure = AnalysisError {
        error: text("error sending request"),
        message: text("connection refused"),
    };
    let view = render_result(Err(failure), "u-42", &config);
    assert_eq!(view.template(), "analyze_result_error_component");
    match view {
        AnalysisView::Failed {
            error,
            message,
            instructions,
        } => {
            assert_eq!(error, "error sending request");
            assert_eq!(message, "connection refused");
            assert_eq!(
                instructions,
                vec![
                    "Pastikan url mengarah ke suatu media berita",
                    "Coba gunakan media berita mainstream",
                    "Coba hubungi pihak pengembang"
                ]
            );
        }
        AnalysisView::Analyzed { .. } => panic!("expected the failure"),
    }
}

#[test]
fn history_is_listed_as_the_backend_gave_it() {
    let listed = UserHistoryT(Some(vec![article("n-1", "One"), article("n-2", "Two")]));
    match render_history_list(Some(listed)) {
        HistoryView::Listed { history } => {
            let history = history.unwrap();
            assert_eq!(history.len(), 2);
            assert_eq!(history[0].id, Some(text("n-1")));
            assert_eq!(history[0].title, "One");
            assert_eq!(history[1].id, Some(text("n-2")));
            assert_eq!(history[1].title, "Two");
        }
        HistoryView::Failed { .. } => panic!("expected the list"),
    }
    match render_history_list(Some(UserHistoryT(Some(Vec::new())))) {
        HistoryView::Listed { history } => assert_eq!(history.unwrap().len(), 0),
        HistoryView::Failed { .. } => panic!("expected the list"),
    }
    match render_history_list(Some(UserHistoryT(None))) {
        HistoryView::Listed { history } => assert!(history.is_none()),
        HistoryView::Failed { .. } => panic!("expected the list"),
    }
}

#[test]
fn history_that_could_not_be_had_shows_an_error() {
    match render_history_list(None) {
        HistoryView::Failed { error } => assert_eq!(error, "some error!"),
        HistoryView::Listed { .. } => panic!("expected the failure"),
    }
}

//! The page templates and the files they are read from.

use crate::{is_project_path, project, PROJECT_SOURCE};
use vstd::prelude::*;

verus! {

/// A template: the name the pages render it by, and the file that holds it.
#[derive(Debug)]
pub struct TemplateFile {
    pub name: &'static str,
    pub path: String,
}

/// The templates, each with its file's path below the project's source
/// directory, in the order in which they are registered.
pub open spec fn template_sources() -> Seq<(Seq<char>, Seq<char>)> {
    seq![
        ("index_html"@, "/index.html"@),
        ("home_page"@, "/app/home/home_page.html"@),
        ("analyze_result_component"@, "/app/home/analyze_result_component.html"@),
        ("analyze_result_error_component"@, "/app/home/analyze_result_error_component.html"@),
        ("analyze_search_component"@, "/app/home/analyze_search_component.html"@),
        ("history_drawer_component"@, "/app/home/history_drawer_component.html"@),
        ("auth_page"@, "/app/auth/auth_page.html"@),
        ("login_page"@, "/app/auth/login_page.html"@),
        ("register_page"@, "/app/auth/register_page.html"@),
        ("error_page"@, "/assets/error_page.html"@),
        ("phantom_html"@, "/assets/phantom.html"@),
    ]
}

/// Whether `file` is the template `source` names, located inside the
/// project's source directory.
pub open spec fn is_template(file: TemplateFile, source: (Seq<char>, Seq<char>)) -> bool {
    file.name@ == source.0 && file.path@ == PROJECT_SOURCE@ + source.1
}

/// The template `name`, held in the file at `path` below the project's
/// source directory.
pub fn template_file(name: &'static str, path: &'static str) -> (file: TemplateFile)
    requires
        is_project_path(path@),
    ensures
        is_template(file, (name@, path@)),
{
    TemplateFile { name, path: project(path) }
}

/// Every template with the file to register it from.
pub fn template_files() -> (files: Vec<TemplateFile>)
    ensures
        files@.len() == template_sources().len(),
        forall|i: int|
            0 <= i < files@.len() ==> is_template(#[trigger] files@[i], template_sources()[i]),
{
    proof {
        reveal_strlit("/index.html");
        reveal_strlit("/app/home/home_page.html");
        reveal_strlit("/app/home/analyze_result_component.html");
        reveal_strlit("/app/home/analyze_result_error_component.html");
        reveal_strlit("/app/home/analyze_search_component.html");
        reveal_strlit("/app/home/history_drawer_component.html");
        reveal_strlit("/app/auth/auth_page.html");
        reveal_strlit("/app/auth/login_page.html");
        reveal_strlit("/app/auth/register_page.html");
        reveal_strlit("/assets/error_page.html");
        reveal_strlit("/assets/phantom.html");
    }
    let mut files: Vec<TemplateFile> = Vec::new();
    files.push(template_file("index_html", "/index.html"));
    files.push(template_file("home_page", "/app/home/home_page.html"));
    files.push(
        template_file("analyze_result_component", "/app/home/analyze_result_component.html"),
    );
    files.push(
        template_file(
            "analyze_result_error_component",
            "/app/home/analyze_result_error_component.html",
        ),
    );
    files.push(
        template_file("analyze_search_component", "/app/home/analyze_search_component.html"),
    );
    files.push(
        template_file("history_drawer_component", "/app/home/history_drawer_component.html"),
    );
    files.push(template_file("auth_page", "/app/auth/auth_page.html"));
    files.push(template_file("login_page", "/app/auth/login_page.html"));
    files.push(template_file("register_page", "/app/auth/register_page.html"));
    files.push(template_file("error_page", "/assets/error_page.html"));
    files.push(template_file("phantom_html", "/assets/phantom.html"));
    files
}

} // verus!

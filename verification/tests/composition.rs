use archivist_front::error_boundary_page;
use archivist_front::extract_dirs;
use archivist_front::extract_plan;
use archivist_front::has_prefix;
use archivist_front::mount_plan;
use archivist_front::resolve;
use archivist_front::ContentKind;
use archivist_front::Namespace;
use archivist_front::Stylesheet;
use archivist_front::DIR_SOURCE;
use archivist_front::ERROR_SOURCE;
use archivist_front::FOOTER_SOURCE;
use archivist_front::HEADER_SOURCE;
use archivist_front::MARKDOWN_SOURCE;
use archivist_front::STYLE_SOURCE;
use archivist_front::UNKNOWN_ERROR_SOURCE;
use archivist_front::VERBATIM_SOURCE;

#[test]
fn style_prefix_never_falls_through() {
    assert_eq!(resolve("/.style/anything"), Namespace::Stylesheet);
    assert_eq!(resolve("/.style/"), Namespace::Stylesheet);
    assert_eq!(resolve("/.style/deep/path.css"), Namespace::Stylesheet);
}

#[test]
fn raw_prefix_resolved_before_catch_all() {
    assert_eq!(resolve("/.r/file.bin"), Namespace::RawFiles);
    assert_eq!(resolve("/.r/"), Namespace::RawFiles);
}

#[test]
fn everything_else_is_rendered() {
    assert_eq!(resolve("/"), Namespace::RenderedFiles);
    assert_eq!(resolve("/dir/file.md"), Namespace::RenderedFiles);
    assert_eq!(resolve("/.style"), Namespace::RenderedFiles);
    assert_eq!(resolve("/.styleish"), Namespace::RenderedFiles);
    assert_eq!(resolve("/.rx"), Namespace::RenderedFiles);
    assert_eq!(resolve(""), Namespace::RenderedFiles);
}

#[test]
fn mount_order_is_fixed() {
    let plan = mount_plan();
    assert_eq!(plan.len(), 3);
    assert_eq!(plan[0], ("/.style/", Namespace::Stylesheet));
    assert_eq!(plan[1], ("/.r/", Namespace::RawFiles));
    assert_eq!(plan[2], ("/", Namespace::RenderedFiles));
}

#[test]
fn prefix_test_is_exact() {
    assert!(has_prefix("abc", "ab"));
    assert!(has_prefix("ab", "ab"));
    assert!(!has_prefix("ab", "abc"));
    assert!(!has_prefix("ba", "ab"));
    assert!(has_prefix("héllo", "hé"));
    assert!(!has_prefix("h", "hé"));
}

#[test]
fn extract_plan_matches_embedded_defaults() {
    let plan = extract_plan();
    assert_eq!(plan.len(), 7);
    assert_eq!(plan[0], ("template/footer.html", FOOTER_SOURCE));
    assert_eq!(plan[1], ("template/header.html", HEADER_SOURCE));
    assert_eq!(plan[2], ("template/dir.html", DIR_SOURCE));
    assert_eq!(plan[3], ("template/markdown.html", MARKDOWN_SOURCE));
    assert_eq!(plan[4], ("template/verbatim.html", VERBATIM_SOURCE));
    assert_eq!(plan[5], ("template/error.html", ERROR_SOURCE));
    assert_eq!(plan[6], ("style/style.css", STYLE_SOURCE));
    assert_eq!(plan.iter().filter(|p| p.0.starts_with("template/")).count(), 6);
    assert_eq!(plan.iter().filter(|p| p.0.starts_with("style/")).count(), 1);
    assert_eq!(extract_dirs(), vec!["template", "style"]);
}

#[test]
fn stylesheet_served_verbatim_as_plain_text() {
    let s = Stylesheet::default();
    let page = s.serve();
    assert_eq!(page.body, STYLE_SOURCE);
    assert_eq!(page.status, 200);
    assert_eq!(page.kind, ContentKind::PlainText);
}

#[test]
fn user_stylesheet_served_unchanged() {
    let s = Stylesheet::from_content(String::from("body{}"));
    let page = s.serve();
    assert_eq!(page.body, "body{}");
    assert_eq!(page.status, 200);
    assert_eq!(page.kind, ContentKind::PlainText);
}

#[test]
fn error_boundary_page_is_fixed_html_500() {
    let page = error_boundary_page();
    assert_eq!(page.body, UNKNOWN_ERROR_SOURCE);
    assert!(page.body.contains("500"));
    assert_eq!(page.status, 500);
    assert_eq!(page.kind, ContentKind::Html);
}

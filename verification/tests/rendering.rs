use archivist_front::Entry;
use archivist_front::TeraRenderer;

fn default_renderer() -> TeraRenderer {
    match TeraRenderer::new_default() {
        Ok(r) => r,
        Err(_) => panic!("the embedded default templates must load"),
    }
}

fn must(r: archivist_front::RenderResult) -> String {
    match r {
        Ok(s) => s,
        Err(_) => panic!("rendering was expected to succeed"),
    }
}

#[test]
fn render_is_deterministic() {
    let a = default_renderer();
    let b = default_renderer();
    let entries = vec![Entry {
        is_dir: false,
        file_name: String::from("notes.txt"),
        modified: String::from("2020-01-02 03:04"),
    }];
    assert_eq!(
        must(a.render_dir("/d/", &entries)),
        must(b.render_dir("/d/", &entries))
    );
    assert_eq!(
        must(a.render_verbatim("/f", "text")),
        must(b.render_verbatim("/f", "text"))
    );
    assert_eq!(
        must(a.render_markdown("/f.md", "# t")),
        must(b.render_markdown("/f.md", "# t"))
    );
    assert_eq!(
        must(a.render_error("/gone", 404, "not found")),
        must(b.render_error("/gone", 404, "not found"))
    );
}

#[test]
fn render_dir_with_no_entries_succeeds() {
    let r = default_renderer();
    let html = must(r.render_dir("/empty/", &Vec::new()));
    assert!(html.contains("empty"));
}

#[test]
fn render_dir_preserves_entry_fields() {
    let r = default_renderer();
    let entries = vec![Entry {
        is_dir: true,
        file_name: String::from("a"),
        modified: String::from("2020-05-06 07:08"),
    }];
    let html = must(r.render_dir("/top/", &entries));
    assert!(html.contains("a"));
    assert!(html.contains("class=\"dir\""));
    assert!(html.contains("2020-05-06 07:08"));
}

#[test]
fn render_dir_marks_files_unlike_directories() {
    let r = default_renderer();
    let entries = vec![Entry {
        is_dir: false,
        file_name: String::from("b.txt"),
        modified: String::from("2020-05-06 07:08"),
    }];
    let html = must(r.render_dir("/top/", &entries));
    assert!(html.contains("class=\"file\""));
    assert!(!html.contains("class=\"dir\""));
}

#[test]
fn render_dir_keeps_entry_order() {
    let r = default_renderer();
    let entries = vec![
        Entry {
            is_dir: false,
            file_name: String::from("first"),
            modified: String::from("t1"),
        },
        Entry {
            is_dir: false,
            file_name: String::from("second"),
            modified: String::from("t2"),
        },
    ];
    let html = must(r.render_dir("/", &entries));
    let i = html.find("first").expect("first entry shown");
    let j = html.find("second").expect("second entry shown");
    assert!(i < j);
}

#[test]
fn render_verbatim_shows_path_and_content() {
    let r = default_renderer();
    let html = must(r.render_verbatim("/hello.txt", "hello world"));
    assert!(html.contains("hello.txt"));
    assert!(html.contains("<pre>hello world</pre>"));
}

#[test]
fn render_markdown_shows_content() {
    let r = default_renderer();
    let html = must(r.render_markdown("/readme.md", "plain paragraph"));
    assert!(html.contains("readme.md"));
    assert!(html.contains("<article>plain paragraph</article>"));
}

#[test]
fn render_error_contains_code_and_message() {
    let r = default_renderer();
    let html = must(r.render_error("/gone", 404, "not found"));
    assert!(html.contains("404"));
    assert!(html.contains("not found"));
    assert!(html.contains("gone"));
}

#[test]
fn override_sources_are_served() {
    let r = match TeraRenderer::from_sources(
        "F",
        "H",
        "D",
        "M",
        "V {{ content }}",
        "E {{ code }}",
    ) {
        Ok(r) => r,
        Err(_) => panic!("six plain sources must load"),
    };
    assert_eq!(must(r.render_verbatim("/f", "x")), "V x");
    assert_eq!(must(r.render_error("/f", 403, "no")), "E 403");
}

#[test]
fn malformed_source_rejected_at_load() {
    let r = TeraRenderer::from_sources("F", "H", "{% endfor %}", "M", "V", "E");
    assert!(r.is_err());
}

#[test]
fn missing_include_fails_per_request() {
    let r = match TeraRenderer::from_sources(
        "F",
        "H",
        "D",
        "M",
        "{% include \"nothere.html\" %}",
        "E",
    ) {
        Ok(r) => r,
        Err(_) => panic!("the sources themselves parse"),
    };
    assert!(r.render_verbatim("/f", "x").is_err());
}

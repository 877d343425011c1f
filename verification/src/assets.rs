//! The embedded default assets: the six template sources, the stylesheet and
//! the fixed error-boundary page, together with the plan for extracting the
//! overridable ones to disk.

use vstd::prelude::*;

verus! {

/// Logical name of the footer template.
pub const FOOTER_NAME: &'static str = "footer.html";

/// Logical name of the header template.
pub const HEADER_NAME: &'static str = "header.html";

/// Logical name of the directory-listing template.
pub const DIR_NAME: &'static str = "dir.html";

/// Logical name of the Markdown template.
pub const MARKDOWN_NAME: &'static str = "markdown.html";

/// Logical name of the verbatim-text template.
pub const VERBATIM_NAME: &'static str = "verbatim.html";

/// Logical name of the error template.
pub const ERROR_NAME: &'static str = "error.html";

/// Embedded default footer: closes what the header opened.
pub const FOOTER_SOURCE: &'static str =
    "</main><footer><p>served by archivist</p></footer></body></html>";

/// Embedded default header: document head, stylesheet link, opening of the body.
pub const HEADER_SOURCE: &'static str =
    "<!DOCTYPE html><html><head><meta charset=\"utf-8\"><title>{{ path }}</title><link rel=\"stylesheet\" href=\"/.style/\"></head><body><main>";

/// Embedded default directory listing: one row per entry, directories marked.
pub const DIR_SOURCE: &'static str =
    "{% include \"header.html\" %}<h1>Index of {{ path }}</h1><table>{% for entry in entries %}<tr class=\"{% if entry.is_dir %}dir{% else %}file{% endif %}\"><td><a href=\"{{ entry.file_name }}\">{{ entry.file_name }}{% if entry.is_dir %}/{% endif %}</a></td><td>{{ entry.modified }}</td></tr>{% endfor %}</table>{% include \"footer.html\" %}";

/// Embedded default Markdown view: the content inside an article element.
pub const MARKDOWN_SOURCE: &'static str =
    "{% include \"header.html\" %}<article>{{ content }}</article>{% include \"footer.html\" %}";

/// Embedded default verbatim view: the content inside a pre element.
pub const VERBATIM_SOURCE: &'static str =
    "{% include \"header.html\" %}<pre>{{ content }}</pre>{% include \"footer.html\" %}";

/// Embedded default error view: the code, the message and the requested path.
pub const ERROR_SOURCE: &'static str =
    "{% include \"header.html\" %}<h1>Error {{ code }}</h1><p>{{ message }}</p><p>Requested path: {{ path }}</p>{% include \"footer.html\" %}";

/// Embedded default stylesheet.
pub const STYLE_SOURCE: &'static str =
    "body{font-family:sans-serif;margin:2em auto;max-width:60em;}table{border-collapse:collapse;}td{padding:0.2em 1em;}a{text-decoration:none;}tr.dir a{font-weight:bold;}";

/// The fixed page the error boundary serves. It is deliberately not a
/// template: it must be available even when the template set is not.
pub const UNKNOWN_ERROR_SOURCE: &'static str =
    "<!DOCTYPE html><html><head><meta charset=\"utf-8\"><title>Server error</title></head><body><h1>500 Internal Server Error</h1><p>The server could not handle the request.</p></body></html>";

/// The template set six sources form when registered under the six logical
/// names.
pub open spec fn template_map(
    footer: Seq<char>,
    header: Seq<char>,
    dir: Seq<char>,
    markdown: Seq<char>,
    verbatim: Seq<char>,
    error: Seq<char>,
) -> Map<Seq<char>, Seq<char>> {
    Map::<Seq<char>, Seq<char>>::empty().insert(FOOTER_NAME@, footer).insert(
        HEADER_NAME@,
        header,
    ).insert(DIR_NAME@, dir).insert(MARKDOWN_NAME@, markdown).insert(
        VERBATIM_NAME@,
        verbatim,
    ).insert(ERROR_NAME@, error)
}

/// The embedded default template set: the six logical names, each bound to
/// its embedded source.
pub open spec fn default_template_map() -> Map<Seq<char>, Seq<char>> {
    template_map(
        FOOTER_SOURCE@,
        HEADER_SOURCE@,
        DIR_SOURCE@,
        MARKDOWN_SOURCE@,
        VERBATIM_SOURCE@,
        ERROR_SOURCE@,
    )
}

/// The files that an extraction writes, as paths relative to the destination
/// directory: the six overridable templates under `template/` and the
/// stylesheet under `style/`, each byte-identical to its embedded default.
pub fn extract_plan() -> (r: Vec<(&'static str, &'static str)>)
    ensures
        r@.len() == 7,
        r@[0].0@ == "template/footer.html"@ && r@[0].1@ == FOOTER_SOURCE@,
        r@[1].0@ == "template/header.html"@ && r@[1].1@ == HEADER_SOURCE@,
        r@[2].0@ == "template/dir.html"@ && r@[2].1@ == DIR_SOURCE@,
        r@[3].0@ == "template/markdown.html"@ && r@[3].1@ == MARKDOWN_SOURCE@,
        r@[4].0@ == "template/verbatim.html"@ && r@[4].1@ == VERBATIM_SOURCE@,
        r@[5].0@ == "template/error.html"@ && r@[5].1@ == ERROR_SOURCE@,
        r@[6].0@ == "style/style.css"@ && r@[6].1@ == STYLE_SOURCE@,
{
    let mut r: Vec<(&'static str, &'static str)> = Vec::new();
    r.push(("template/footer.html", FOOTER_SOURCE));
    r.push(("template/header.html", HEADER_SOURCE));
    r.push(("template/dir.html", DIR_SOURCE));
    r.push(("template/markdown.html", MARKDOWN_SOURCE));
    r.push(("template/verbatim.html", VERBATIM_SOURCE));
    r.push(("template/error.html", ERROR_SOURCE));
    r.push(("style/style.css", STYLE_SOURCE));
    r
}

/// The directories an extraction creates inside the destination, in the
/// order they must be made.
pub fn extract_dirs() -> (r: Vec<&'static str>)
    ensures
        r@.len() == 2,
        r@[0]@ == "template"@,
        r@[1]@ == "style"@,
{
    let mut r: Vec<&'static str> = Vec::new();
    r.push("template");
    r.push("style");
    r
}

} // verus!

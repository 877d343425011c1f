//! The rendering capability: four operations that turn a structured "what to
//! show" request into final HTML through the template engine. Each operation
//! builds its context from the request data alone, names its template, and
//! reports any engine failure as a value, never as a panic.

use vstd::prelude::*;
use crate::assets::default_template_map;
use crate::assets::template_map;
use crate::assets::DIR_NAME;
use crate::assets::DIR_SOURCE;
use crate::assets::ERROR_NAME;
use crate::assets::ERROR_SOURCE;
use crate::assets::FOOTER_SOURCE;
use crate::assets::HEADER_SOURCE;
use crate::assets::MARKDOWN_NAME;
use crate::assets::MARKDOWN_SOURCE;
use crate::assets::VERBATIM_NAME;
use crate::assets::VERBATIM_SOURCE;
use crate::engine::ctx_data;
use crate::engine::ctx_insert_bool;
use crate::engine::ctx_insert_rows;
use crate::engine::ctx_insert_str;
use crate::engine::ctx_insert_usize;
use crate::engine::ctx_new;
use crate::engine::default_render;
use crate::engine::empty_ctx;
use crate::engine::engine_add_template_set;
use crate::engine::engine_new;
use crate::engine::engine_plain;
use crate::engine::engine_render;
use crate::engine::engine_templates;
use crate::engine::template_set_ok;
use crate::engine::CtxVal;

verus! {

/// One row of a directory listing, as the file-serving engine reports it:
/// the directory flag, the file name, and the modification time already
/// formatted for display.
pub struct Entry {
    pub is_dir: bool,
    pub file_name: String,
    pub modified: String,
}

/// The mathematical value of an `Entry`.
pub struct EntryView {
    pub is_dir: bool,
    pub file_name: Seq<char>,
    pub modified: Seq<char>,
}

impl View for Entry {
    type V = EntryView;

    open spec fn view(&self) -> EntryView {
        EntryView {
            is_dir: self.is_dir,
            file_name: self.file_name@,
            modified: self.modified@,
        }
    }
}

/// The views of a sequence of entries, in order.
pub open spec fn entry_views(entries: Seq<Entry>) -> Seq<EntryView> {
    Seq::new(entries.len(), |i: int| entries[i]@)
}

/// The sub-context one directory entry contributes: its three fields, bound
/// under their own names, untransformed.
pub open spec fn entry_ctx(e: EntryView) -> Map<Seq<char>, CtxVal> {
    empty_ctx().insert("is_dir"@, CtxVal::Flag(e.is_dir)).insert(
        "file_name"@,
        CtxVal::Text(e.file_name),
    ).insert("modified"@, CtxVal::Text(e.modified))
}

/// The sub-contexts of a sequence of entries, in order.
pub open spec fn entry_rows(entries: Seq<EntryView>) -> Seq<Map<Seq<char>, CtxVal>> {
    Seq::new(entries.len(), |i: int| entry_ctx(entries[i]))
}

/// The context of a directory listing: the displayed path and the ordered
/// rows of entry sub-contexts.
pub open spec fn dir_ctx(path: Seq<char>, entries: Seq<EntryView>) -> Map<Seq<char>, CtxVal> {
    empty_ctx().insert("path"@, CtxVal::Text(path)).insert(
        "entries"@,
        CtxVal::Rows(entry_rows(entries)),
    )
}

/// The context of a verbatim or Markdown view: the displayed path and the
/// file content.
pub open spec fn content_ctx(path: Seq<char>, content: Seq<char>) -> Map<Seq<char>, CtxVal> {
    empty_ctx().insert("path"@, CtxVal::Text(path)).insert("content"@, CtxVal::Text(content))
}

/// The context of an error page: the displayed path, the status-like code
/// and the message.
pub open spec fn error_ctx(path: Seq<char>, code: usize, message: Seq<char>) -> Map<
    Seq<char>,
    CtxVal,
> {
    empty_ctx().insert("path"@, CtxVal::Text(path)).insert("code"@, CtxVal::Num(code)).insert(
        "message"@,
        CtxVal::Text(message),
    )
}

/// A rendering failure, carrying the engine's own report of the cause.
pub struct RenderError {
    pub cause: tera::Error,
}

/// The outcome of a render call: the finished HTML body, or a failure.
pub type RenderResult = Result<String, RenderError>;

/// A failure to build the template set, carrying the engine's own report.
pub struct TemplateError {
    pub cause: tera::Error,
}

/// Whether six sources are accepted: registered as one set, every source
/// must parse and the links of the whole set must resolve.
pub open spec fn sources_accepted(
    footer: Seq<char>,
    header: Seq<char>,
    dir: Seq<char>,
    markdown: Seq<char>,
    verbatim: Seq<char>,
    error: Seq<char>,
) -> bool {
    template_set_ok(template_map(footer, header, dir, markdown, verbatim, error))
}

/// Whether the embedded default sources are accepted. The renderer treats a
/// failure here as impossible in practice, but still reports it as a startup
/// failure rather than a panic.
pub open spec fn default_sources_accepted() -> bool {
    sources_accepted(
        FOOTER_SOURCE@,
        HEADER_SOURCE@,
        DIR_SOURCE@,
        MARKDOWN_SOURCE@,
        VERBATIM_SOURCE@,
        ERROR_SOURCE@,
    )
}

/// The renderer: a template engine holding the fixed, named template set.
/// Built once at startup and shared read-only by every route that renders.
pub struct TeraRenderer {
    engine: tera::Tera,
}

impl TeraRenderer {
    /// The template sources this renderer holds.
    pub closed spec fn templates(&self) -> Map<Seq<char>, Seq<char>> {
        engine_templates(self.engine)
    }

    /// Whether the engine is in its stock shape, holding nothing but
    /// registered sources.
    pub closed spec fn plain(&self) -> bool {
        engine_plain(self.engine)
    }

    /// Whether this renderer holds exactly the embedded default template
    /// set, for which every rendering is a fixed function of the request.
    pub open spec fn is_default(&self) -> bool {
        self.plain() && self.templates() == default_template_map()
    }

    /// Build a renderer from six template sources, registered as one set
    /// under the six logical names. All six must be accepted; a partial set
    /// never serves.
    pub fn from_sources(
        footer: &str,
        header: &str,
        dir: &str,
        markdown: &str,
        verbatim: &str,
        error: &str,
    ) -> (r: Result<TeraRenderer, TemplateError>)
        ensures
            r is Ok <==> sources_accepted(
                footer@,
                header@,
                dir@,
                markdown@,
                verbatim@,
                error@,
            ),
            r is Ok ==> r->Ok_0.plain(),
            r is Ok ==> r->Ok_0.templates() == template_map(
                footer@,
                header@,
                dir@,
                markdown@,
                verbatim@,
                error@,
            ),
    {
        let mut engine = engine_new();
        match engine_add_template_set(&mut engine, footer, header, dir, markdown, verbatim, error) {
            Ok(()) => Ok(TeraRenderer { engine }),
            Err(e) => Err(TemplateError { cause: e }),
        }
    }

    /// Build the renderer that holds the embedded default template set.
    pub fn new_default() -> (r: Result<TeraRenderer, TemplateError>)
        ensures
            r is Ok <==> default_sources_accepted(),
            r is Ok ==> r->Ok_0.is_default(),
    {
        let r = Self::from_sources(
            FOOTER_SOURCE,
            HEADER_SOURCE,
            DIR_SOURCE,
            MARKDOWN_SOURCE,
            VERBATIM_SOURCE,
            ERROR_SOURCE,
        );
        r
    }

    /// Render a directory listing: the context carries the displayed path
    /// and one sub-context per entry, in order, each preserving `is_dir`,
    /// `file_name` and `modified` untransformed. Under the default template
    /// set the outcome is a fixed function of path and entries.
    pub fn render_dir(&self, path_str: &str, entries: &Vec<Entry>) -> (r: RenderResult)
        ensures
            self.is_default() ==> (r is Ok <==> default_render(
                DIR_NAME@,
                dir_ctx(path_str@, entry_views(entries@)),
            ) is Some),
            self.is_default() && r is Ok ==> default_render(
                DIR_NAME@,
                dir_ctx(path_str@, entry_views(entries@)),
            ) == Some(r->Ok_0@),
    {
        let mut ctx = ctx_new();
        ctx_insert_str(&mut ctx, "path", path_str);
        let mut rows: Vec<tera::Context> = Vec::new();
        let mut i: usize = 0;
        while i < entries.len()
            invariant
                i <= entries.len(),
                rows@.len() == i as nat,
                forall|j: int| 0 <= j < i ==> ctx_data(rows@[j]) == entry_ctx(entries@[j]@),
            decreases entries.len() - i,
        {
            let row = entry_to_context(&entries[i]);
            rows.push(row);
            i += 1;
        }
        ctx_insert_rows(&mut ctx, "entries", &rows);
        proof {
            assert(Seq::new(rows@.len() as nat, |k: int| ctx_data(rows@[k])) =~= entry_rows(
                entry_views(entries@),
            ));
            assert(ctx_data(ctx) == dir_ctx(path_str@, entry_views(entries@)));
        }
        match engine_render(&self.engine, DIR_NAME, &ctx) {
            Ok(s) => Ok(s),
            Err(e) => Err(RenderError { cause: e }),
        }
    }

    /// Render a plain-text preview: the context carries the displayed path
    /// and the content. Under the default template set the outcome is a
    /// fixed function of path and content.
    pub fn render_verbatim(&self, path_str: &str, content: &str) -> (r: RenderResult)
        ensures
            self.is_default() ==> (r is Ok <==> default_render(
                VERBATIM_NAME@,
                content_ctx(path_str@, content@),
            ) is Some),
            self.is_default() && r is Ok ==> default_render(
                VERBATIM_NAME@,
                content_ctx(path_str@, content@),
            ) == Some(r->Ok_0@),
    {
        let mut ctx = ctx_new();
        ctx_insert_str(&mut ctx, "path", path_str);
        ctx_insert_str(&mut ctx, "content", content);
        match engine_render(&self.engine, VERBATIM_NAME, &ctx) {
            Ok(s) => Ok(s),
            Err(e) => Err(RenderError { cause: e }),
        }
    }

    /// Render a Markdown view: the same context shape as the verbatim view,
    /// under the Markdown template; interpreting the content as Markdown is
    /// the template's concern. Under the default template set the outcome is
    /// a fixed function of path and content.
    pub fn render_markdown(&self, path_str: &str, content: &str) -> (r: RenderResult)
        ensures
            self.is_default() ==> (r is Ok <==> default_render(
                MARKDOWN_NAME@,
                content_ctx(path_str@, content@),
            ) is Some),
            self.is_default() && r is Ok ==> default_render(
                MARKDOWN_NAME@,
                content_ctx(path_str@, content@),
            ) == Some(r->Ok_0@),
    {
        let mut ctx = ctx_new();
        ctx_insert_str(&mut ctx, "path", path_str);
        ctx_insert_str(&mut ctx, "content", content);
        match engine_render(&self.engine, MARKDOWN_NAME, &ctx) {
            Ok(s) => Ok(s),
            Err(e) => Err(RenderError { cause: e }),
        }
    }

    /// Render an error page: the context carries the displayed path, the
    /// status-like code (not validated here) and the message. Under the
    /// default template set the outcome is a fixed function of the three.
    pub fn render_error(&self, path_str: &str, code: usize, message: &str) -> (r: RenderResult)
        ensures
            self.is_default() ==> (r is Ok <==> default_render(
                ERROR_NAME@,
                error_ctx(path_str@, code, message@),
            ) is Some),
            self.is_default() && r is Ok ==> default_render(
                ERROR_NAME@,
                error_ctx(path_str@, code, message@),
            ) == Some(r->Ok_0@),
    {
        let mut ctx = ctx_new();
        ctx_insert_str(&mut ctx, "path", path_str);
        ctx_insert_usize(&mut ctx, "code", code);
        ctx_insert_str(&mut ctx, "message", message);
        match engine_render(&self.engine, ERROR_NAME, &ctx) {
            Ok(s) => Ok(s),
            Err(e) => Err(RenderError { cause: e }),
        }
    }
}

/// Build the sub-context of one directory entry: each field under its own
/// name, untransformed.
fn entry_to_context(entry: &Entry) -> (c: tera::Context)
    ensures
        ctx_data(c) == entry_ctx(entry@),
{
    let mut c = ctx_new();
    ctx_insert_bool(&mut c, "is_dir", entry.is_dir);
    ctx_insert_str(&mut c, "file_name", entry.file_name.as_str());
    ctx_insert_str(&mut c, "modified", entry.modified.as_str());
    c
}

/// Law: the sub-context built for an entry preserves `is_dir`, `file_name`
/// and `modified` exactly, each under its own key.
pub proof fn lemma_entry_context_preserves(e: EntryView)
    ensures
        entry_ctx(e)["is_dir"@] == CtxVal::Flag(e.is_dir),
        entry_ctx(e)["file_name"@] == CtxVal::Text(e.file_name),
        entry_ctx(e)["modified"@] == CtxVal::Text(e.modified),
{
    reveal_strlit("is_dir");
    reveal_strlit("file_name");
    reveal_strlit("modified");
    assert("is_dir"@.len() == 6);
    assert("file_name"@.len() == 9);
    assert("modified"@.len() == 8);
}

} // verus!

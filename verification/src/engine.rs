//! The boundary to the template engine (tera). Everything the rest of the
//! library knows about an engine value or a rendering context is stated here,
//! over two models: the map of named template sources an engine holds, and
//! the key-value bindings a context holds.

use vstd::prelude::*;
use crate::assets::default_template_map;

verus! {

/// A value bound to a key of a rendering context.
pub enum CtxVal {
    /// A string datum.
    Text(Seq<char>),
    /// A boolean datum.
    Flag(bool),
    /// An unsigned numeral (an HTTP-status-like code).
    Num(usize),
    /// An ordered list of sub-contexts, one per directory entry.
    Rows(Seq<Map<Seq<char>, CtxVal>>),
}

#[verifier::external_type_specification]
#[verifier::external_body]
pub struct ExTera(tera::Tera);

#[verifier::external_type_specification]
#[verifier::external_body]
pub struct ExContext(tera::Context);

#[verifier::external_type_specification]
#[verifier::external_body]
pub struct ExTeraError(tera::Error);

/// The named template sources an engine holds.
pub uninterp spec fn engine_templates(t: tera::Tera) -> Map<Seq<char>, Seq<char>>;

/// The template model of an engine that holds nothing yet.
pub open spec fn empty_templates() -> Map<Seq<char>, Seq<char>> {
    Map::empty()
}

/// The binding model of a context that holds nothing yet.
pub open spec fn empty_ctx() -> Map<Seq<char>, CtxVal> {
    Map::empty()
}

/// Whether an engine is in its stock shape: made by `engine_new` and grown
/// only by `engine_add_template`, so that nothing but the registered sources
/// and tera's built-in operators can influence a rendering.
pub uninterp spec fn engine_plain(t: tera::Tera) -> bool;

/// The key-value bindings a rendering context holds.
pub uninterp spec fn ctx_data(c: tera::Context) -> Map<Seq<char>, CtxVal>;

/// Whether a set of template sources is accepted as a whole: each source
/// parses and the inheritance and macro links among them resolve. A function
/// of the sources alone.
pub uninterp spec fn template_set_ok(m: Map<Seq<char>, Seq<char>>) -> bool;

/// What an engine holding exactly the embedded default template set renders
/// for a template name and a context: `None` when rendering fails, otherwise
/// the produced text. The default templates consult nothing but the context,
/// so this is a function of name and context alone.
pub uninterp spec fn default_render(name: Seq<char>, ctx: Map<Seq<char>, CtxVal>) -> Option<
    Seq<char>,
>;

/// Relies on tera::Tera::default: a fresh engine holding no templates, with
/// only tera's stock filters, testers and functions registered.
#[verifier::external_body]
pub(crate) fn engine_new() -> (t: tera::Tera)
    ensures
        engine_plain(t),
        engine_templates(t) == empty_templates(),
{
    tera::Tera::default()
}

/// Relies on tera::Tera::add_raw_templates: registers the six sources under
/// the six logical template names in one step, on a fresh engine. It
/// succeeds exactly when every source parses and the inheritance and macro
/// links of the whole set resolve, and on success the engine holds exactly
/// that set. On failure the engine is discarded by every caller, so nothing
/// is said of its state then.
#[verifier::external_body]
pub(crate) fn engine_add_template_set(
    t: &mut tera::Tera,
    footer: &str,
    header: &str,
    dir: &str,
    markdown: &str,
    verbatim: &str,
    error: &str,
) -> (r: Result<(), tera::Error>)
    requires
        engine_plain(*old(t)),
        engine_templates(*old(t)) == empty_templates(),
    ensures
        r is Ok <==> template_set_ok(
            crate::assets::template_map(footer@, header@, dir@, markdown@, verbatim@, error@),
        ),
        r is Ok ==> engine_templates(*final(t)) == crate::assets::template_map(
            footer@,
            header@,
            dir@,
            markdown@,
            verbatim@,
            error@,
        ),
        r is Ok ==> engine_plain(*final(t)),
{
    t.add_raw_templates(vec![
        ("footer.html", footer),
        ("header.html", header),
        ("dir.html", dir),
        ("markdown.html", markdown),
        ("verbatim.html", verbatim),
        ("error.html", error),
    ])
}

/// Relies on tera::Tera::render: a missing template name fails, and an
/// engine in its stock shape holding exactly the embedded default template
/// set renders as a fixed function of the template name and the context
/// (none of the default templates consults time, randomness or the
/// environment).
#[verifier::external_body]
pub(crate) fn engine_render(t: &tera::Tera, name: &str, ctx: &tera::Context) -> (r: Result<
    String,
    tera::Error,
>)
    ensures
        engine_plain(*t) && engine_templates(*t) == default_template_map() ==> {
            &&& (r is Ok <==> default_render(name@, ctx_data(*ctx)) is Some)
            &&& (r is Ok ==> default_render(name@, ctx_data(*ctx)) == Some(r->Ok_0@))
        },
        engine_plain(*t) && !engine_templates(*t).contains_key(name@) ==> r is Err,
{
    t.render(name, ctx)
}

/// Relies on tera::Context::new: a fresh context with no bindings.
#[verifier::external_body]
pub(crate) fn ctx_new() -> (c: tera::Context)
    ensures
        ctx_data(c) == empty_ctx(),
{
    tera::Context::new()
}

/// Relies on tera::Context::insert: binds `key` to the string `val`
/// (serializing a string slice cannot fail).
#[verifier::external_body]
pub(crate) fn ctx_insert_str(c: &mut tera::Context, key: &str, val: &str)
    ensures
        ctx_data(*final(c)) == ctx_data(*old(c)).insert(key@, CtxVal::Text(val@)),
{
    c.insert(key, val);
}

/// Relies on tera::Context::insert: binds `key` to the boolean `val`
/// (serializing a boolean cannot fail).
#[verifier::external_body]
pub(crate) fn ctx_insert_bool(c: &mut tera::Context, key: &str, val: bool)
    ensures
        ctx_data(*final(c)) == ctx_data(*old(c)).insert(key@, CtxVal::Flag(val)),
{
    c.insert(key, &val);
}

/// Relies on tera::Context::insert: binds `key` to the numeral `val`
/// (serializing an unsigned integer cannot fail).
#[verifier::external_body]
pub(crate) fn ctx_insert_usize(c: &mut tera::Context, key: &str, val: usize)
    ensures
        ctx_data(*final(c)) == ctx_data(*old(c)).insert(key@, CtxVal::Num(val)),
{
    c.insert(key, &val);
}

/// Relies on tera::Context::insert and tera::Context::into_json: binds `key`
/// to the list of the given sub-contexts' bindings, in their order
/// (serializing a list of JSON objects cannot fail).
#[verifier::external_body]
pub(crate) fn ctx_insert_rows(c: &mut tera::Context, key: &str, rows: &Vec<tera::Context>)
    ensures
        ctx_data(*final(c)) == ctx_data(*old(c)).insert(
            key@,
            CtxVal::Rows(Seq::new(rows@.len() as nat, |i: int| ctx_data(rows@[i]))),
        ),
{
    let vals: Vec<tera::Value> = rows.iter().map(|r| r.clone().into_json()).collect();
    c.insert(key, &vals);
}

} // verus!

//! The route-composition policy: three URL namespaces layered in a fixed
//! order, the two specific prefixes before the catch-all, so that a request
//! is dispatched by the first prefix that matches.

use vstd::prelude::*;

verus! {

/// The three branches of the dispatch tree.
#[derive(Clone, Copy, PartialEq, Eq, Structural, Debug)]
pub enum Namespace {
    /// The stylesheet asset, under the style prefix.
    Stylesheet,
    /// Unrendered file bytes, under the raw prefix.
    RawFiles,
    /// Rendered views of files and directories, under the root.
    RenderedFiles,
}

/// The prefix of the stylesheet namespace.
pub const STYLE_PREFIX: &'static str = "/.style/";

/// The prefix of the raw-file namespace.
pub const RAW_PREFIX: &'static str = "/.r/";

/// The prefix of the rendered-file namespace: the catch-all.
pub const ROOT_PREFIX: &'static str = "/";

/// Where a request path is dispatched: the first of the three prefixes, in
/// mounting order, that the path begins with. The style and raw prefixes are
/// always consulted before the catch-all.
pub open spec fn route_of(path: Seq<char>) -> Namespace {
    if STYLE_PREFIX@.is_prefix_of(path) {
        Namespace::Stylesheet
    } else if RAW_PREFIX@.is_prefix_of(path) {
        Namespace::RawFiles
    } else {
        Namespace::RenderedFiles
    }
}

/// Whether `prefix` is a prefix of `s`, decided character by character.
pub fn has_prefix(s: &str, prefix: &str) -> (b: bool)
    ensures
        b == prefix@.is_prefix_of(s@),
{
    let n = prefix.unicode_len();
    let m = s.unicode_len();
    if n > m {
        return false;
    }
    let mut i: usize = 0;
    while i < n
        invariant
            i <= n,
            n == prefix@.len(),
            m == s@.len(),
            n <= m,
            forall|j: int| 0 <= j < i ==> s@[j] == prefix@[j],
        decreases n - i,
    {
        if s.get_char(i) != prefix.get_char(i) {
            proof {
                assert(s@.subrange(0, n as int)[i as int] != prefix@[i as int]);
            }
            return false;
        }
        i += 1;
    }
    proof {
        assert(s@.subrange(0, n as int) =~= prefix@);
    }
    true
}

/// Dispatch a request path to its namespace, in the mounted order: the
/// stylesheet prefix first, the raw prefix second, everything else to the
/// rendered namespace.
pub fn resolve(path: &str) -> (n: Namespace)
    ensures
        n == route_of(path@),
{
    if has_prefix(path, STYLE_PREFIX) {
        Namespace::Stylesheet
    } else if has_prefix(path, RAW_PREFIX) {
        Namespace::RawFiles
    } else {
        Namespace::RenderedFiles
    }
}

/// The dispatch tree to build, in mounting order: prefixes first, the
/// catch-all last.
pub fn mount_plan() -> (r: Vec<(&'static str, Namespace)>)
    ensures
        r@.len() == 3,
        r@[0].0@ == STYLE_PREFIX@ && r@[0].1 == Namespace::Stylesheet,
        r@[1].0@ == RAW_PREFIX@ && r@[1].1 == Namespace::RawFiles,
        r@[2].0@ == ROOT_PREFIX@ && r@[2].1 == Namespace::RenderedFiles,
{
    let mut r: Vec<(&'static str, Namespace)> = Vec::new();
    r.push((STYLE_PREFIX, Namespace::Stylesheet));
    r.push((RAW_PREFIX, Namespace::RawFiles));
    r.push((ROOT_PREFIX, Namespace::RenderedFiles));
    r
}

/// Law: a path under the style prefix always reaches the stylesheet
/// namespace and never falls through to the rendered one, although the
/// catch-all is also mounted.
pub proof fn lemma_stylesheet_precedence(path: Seq<char>)
    requires
        STYLE_PREFIX@.is_prefix_of(path),
    ensures
        route_of(path) == Namespace::Stylesheet,
{
}

/// Law: the style and raw prefixes never overlap: no path lies under both.
pub proof fn lemma_prefixes_disjoint(path: Seq<char>)
    ensures
        !(STYLE_PREFIX@.is_prefix_of(path) && RAW_PREFIX@.is_prefix_of(path)),
{
    reveal_strlit("/.style/");
    reveal_strlit("/.r/");
    if STYLE_PREFIX@.is_prefix_of(path) && RAW_PREFIX@.is_prefix_of(path) {
        assert(path.subrange(0, 8)[2] == path[2]);
        assert(path.subrange(0, 4)[2] == path[2]);
        assert(false);
    }
}

} // verus!

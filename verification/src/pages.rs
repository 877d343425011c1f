//! The two fixed, template-free responses: the stylesheet asset and the
//! error-boundary page.

use vstd::prelude::*;
use crate::assets::STYLE_SOURCE;
use crate::assets::UNKNOWN_ERROR_SOURCE;

verus! {

/// How a body is labelled for the transport.
#[derive(Clone, Copy, PartialEq, Eq, Structural, Debug)]
pub enum ContentKind {
    /// Plain text.
    PlainText,
    /// HTML.
    Html,
}

/// A finished response for the transport to send: body, status and label.
pub struct Page {
    pub body: String,
    pub status: u16,
    pub kind: ContentKind,
}

/// The stylesheet asset: a single immutable text blob held for the process
/// lifetime, either the embedded default or a user-supplied text read once
/// at startup.
pub struct Stylesheet {
    content: String,
}

impl View for Stylesheet {
    type V = Seq<char>;

    closed spec fn view(&self) -> Seq<char> {
        self.content@
    }
}

impl Default for Stylesheet {
    /// The embedded default stylesheet.
    fn default() -> (s: Stylesheet)
        ensures
            s@ == STYLE_SOURCE@,
    {
        Stylesheet { content: STYLE_SOURCE.to_owned() }
    }
}

impl Stylesheet {
    /// A stylesheet from user-supplied text.
    pub fn from_content(content: String) -> (s: Stylesheet)
        ensures
            s@ == content@,
    {
        Stylesheet { content }
    }

    /// The response for any request under the style prefix: the asset
    /// verbatim, as plain text, with status 200, whatever the rest of the
    /// path says.
    pub fn serve(&self) -> (p: Page)
        ensures
            p.body@ == self@,
            p.status == 200,
            p.kind == ContentKind::PlainText,
    {
        Page { body: self.content.clone(), status: 200, kind: ContentKind::PlainText }
    }
}

/// The response of the last-resort error boundary: the fixed embedded page,
/// as HTML, with status 500. It never inspects the failure it replaces.
pub fn error_boundary_page() -> (p: Page)
    ensures
        p.body@ == UNKNOWN_ERROR_SOURCE@,
        p.status == 500,
        p.kind == ContentKind::Html,
{
    Page { body: UNKNOWN_ERROR_SOURCE.to_owned(), status: 500, kind: ContentKind::Html }
}

} // verus!

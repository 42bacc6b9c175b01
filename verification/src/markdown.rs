//! Markdown rendering, done by the `pulldown_cmark` crate.

use vstd::prelude::*;

verus! {

/// The HTML the Markdown renderer produces for `md`, tables enabled.  The
/// output is a function of the input text alone.
pub uninterp spec fn html_of(md: Seq<char>) -> Seq<char>;

/// Relies on pulldown_cmark::html::push_html over Parser::new_ext with
/// `ENABLE_TABLES`: renders the Markdown text to HTML, the same output for
/// the same input.
#[verifier::external_body]
pub(crate) fn render_markdown(body: &str) -> (r: String)
    ensures
        r@ == html_of(body@),
{
    let mut opts = pulldown_cmark::Options::empty();
    opts.insert(pulldown_cmark::Options::ENABLE_TABLES);
    let parser = pulldown_cmark::Parser::new_ext(body, opts);
    let mut out = String::new();
    pulldown_cmark::html::push_html(&mut out, parser);
    out
}

} // verus!

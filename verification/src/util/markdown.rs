//! Pages of the service's own documentation.

use pulldown_cmark::{html, Options, Parser};
use vstd::prelude::*;

use crate::util::text::push_char;

verus! {

/// The HTML that the Markdown renderer makes of a text, with every extension
/// of the renderer switched on.
pub uninterp spec fn rendered_html(markdown: Seq<char>) -> Seq<char>;

/// `text` with every line feed replaced by `<br>`.
pub open spec fn with_line_breaks(text: Seq<char>) -> Seq<char>
    decreases text.len(),
{
    if text.len() == 0 {
        Seq::empty()
    } else if text.last() == '\n' {
        with_line_breaks(text.drop_last()) + "<br>"@
    } else {
        with_line_breaks(text.drop_last()).push(text.last())
    }
}

/// `pulldown_cmark::Parser::new_ext` with `Options::all()`, then
/// `pulldown_cmark::html::push_html` into an empty string. What comes out
/// depends on the text alone; it is named, not described.
#[verifier::external_body]
fn render(markdown: &str) -> (page: String)
    ensures
        page@ == rendered_html(markdown@),
{
    let parser = Parser::new_ext(markdown, Options::all());
    let mut page = String::new();
    html::push_html(&mut page, parser);
    page
}

/// Replaces every line feed in `text` by `<br>`.
pub fn break_lines(text: &str) -> (broken: String)
    ensures
        broken@ == with_line_breaks(text@),
{
    let mut broken = String::new();
    assert(text@.take(0) =~= Seq::<char>::empty());
    for c in it: text.chars()
        invariant
            it.seq() == text@,
            broken@ == with_line_breaks(text@.take(it.index() as int)),
    {
        let ghost i = it.index() as int;
        assert(text@.take(i + 1).drop_last() =~= text@.take(i));
        assert(text@.take(i + 1).last() == c);
        if c == '\n' {
            broken.append("<br>");
        } else {
            push_char(&mut broken, c);
        }
    }
    assert(text@.take(text@.len() as int) =~= text@);
    broken
}

/// Renders Markdown as HTML in which every line feed has become `<br>`.
pub fn markdown_to_html_with_line_breaks(markdown: &str) -> (page: String)
    ensures
        page@ == with_line_breaks(rendered_html(markdown@)),
{
    let html_output = render(markdown);
    break_lines(html_output.as_str())
}

} // verus!

//! The Markdown renderer: a commonmark-compatible conversion of the document
//! body to an HTML fragment (with table support), followed by the
//! post-processing rewriter chain.

use vstd::prelude::*;
use crate::rewrite::{
    rewrite_chain, rewriter_quiescent,
    pass_block_math, pass_inline_math, pass_lists, pass_code_blocks,
    ol_open, ul_open, pre_open,
};
use crate::text::occurs_at;

verus! {

/// The HTML fragment that the commonmark renderer produces for a Markdown
/// body. The full rendering relation takes pages to state; this names it.
pub uninterp spec fn md_html_of(s: Seq<char>) -> Seq<char>;

/// A plain single-line text: nonempty, only ASCII letters and spaces, and no
/// leading or trailing space. Such a body holds no Markdown-special syntax.
pub open spec fn plain_text(s: Seq<char>) -> bool {
    &&& s.len() > 0
    &&& forall|i: int| 0 <= i < s.len() ==> is_plain_char(s[i])
    &&& s[0] != ' '
    &&& s[s.len() - 1] != ' '
}

pub open spec fn is_plain_char(c: char) -> bool {
    ('a' <= c && c <= 'z') || ('A' <= c && c <= 'Z') || c == ' '
}

/// The text wrapped in a single paragraph element, as the renderer emits it.
pub open spec fn paragraph_wrap(s: Seq<char>) -> Seq<char> {
    seq!['<', 'p', '>'] + s + seq!['<', '/', 'p', '>', '\n']
}

/// Relies on pulldown_cmark (`Parser::new_ext` with the tables extension and
/// `html::push_html`): the rendered HTML is a function of the input text
/// alone, and a commonmark paragraph of plain single-line text renders to the
/// text wrapped in a single `<p>` element followed by a newline.
#[verifier::external_body]
fn render_commonmark(md: &str) -> (r: String)
    ensures
        r@ == md_html_of(md@),
        plain_text(md@) ==> r@ == paragraph_wrap(md@),
{
    let mut options = pulldown_cmark::Options::empty();
    options.insert(pulldown_cmark::Options::ENABLE_TABLES);
    let parser = pulldown_cmark::Parser::new_ext(md, options);
    let mut html_output = String::new();
    pulldown_cmark::html::push_html(&mut html_output, parser);
    html_output
}

/// A paragraph of plain text has nothing for the rewriter chain to do.
proof fn lemma_paragraph_quiescent(s: Seq<char>)
    requires
        plain_text(s),
    ensures
        rewriter_quiescent(paragraph_wrap(s)),
{
    let t = paragraph_wrap(s);
    let n = s.len() as int;
    assert forall|k: int| 0 <= k < t.len() implies t[k] != '$' by {
        if 3 <= k < n + 3 {
            assert(is_plain_char(s[k - 3]));
        }
    }
    assert forall|j: int| !occurs_at(t, j, ol_open()) by {
        if occurs_at(t, j, ol_open()) {
            assert(t.subrange(j, j + 4)[0] == '<');
            assert(t.subrange(j, j + 4)[1] == 'o');
            lemma_wrap_lt_positions(s, j);
        }
    }
    assert forall|j: int| !occurs_at(t, j, ul_open()) by {
        if occurs_at(t, j, ul_open()) {
            assert(t.subrange(j, j + 4)[0] == '<');
            assert(t.subrange(j, j + 4)[1] == 'u');
            lemma_wrap_lt_positions(s, j);
        }
    }
    assert forall|j: int| !occurs_at(t, j, pre_open()) by {
        if occurs_at(t, j, pre_open()) {
            assert(t.subrange(j, j + 11)[0] == '<');
            assert(t.subrange(j, j + 11)[1] == 'p');
            assert(t.subrange(j, j + 11)[2] == 'r');
            lemma_wrap_lt_positions(s, j);
        }
    }
}

/// In a wrapped paragraph, a `<` stands only at the very start and at the
/// closing tag, and what follows each is fixed.
proof fn lemma_wrap_lt_positions(s: Seq<char>, j: int)
    requires
        plain_text(s),
        0 <= j < paragraph_wrap(s).len(),
        paragraph_wrap(s)[j] == '<',
    ensures
        j == 0 || j == 3 + s.len(),
        j == 0 ==> paragraph_wrap(s)[1] == 'p' && paragraph_wrap(s)[2] == '>',
        j == 3 + s.len() ==> paragraph_wrap(s)[j + 1] == '/',
{
    let t = paragraph_wrap(s);
    let n = s.len() as int;
    if 3 <= j < n + 3 {
        assert(is_plain_char(s[j - 3]));
    }
}

/// Converts a Markdown body to its final HTML fragment: the commonmark
/// rendering, then the rewriter chain. A body of plain single-line text comes
/// back as that text wrapped in a single paragraph element.
pub fn markdown_to_html(markdown: &str) -> (r: String)
    ensures
        r@ == rewrite_chain(md_html_of(markdown@)),
        plain_text(markdown@) ==> r@ == paragraph_wrap(markdown@),
{
    let html = render_commonmark(markdown);
    let a = pass_block_math(html.as_str());
    let b = pass_inline_math(a.as_str());
    let c = pass_lists(b.as_str());
    let d = pass_code_blocks(c.as_str());
    proof {
        if plain_text(markdown@) {
            lemma_paragraph_quiescent(markdown@);
            crate::rewrite::lemma_rewrite_chain_fixed(paragraph_wrap(markdown@));
        }
    }
    d
}

} // verus!

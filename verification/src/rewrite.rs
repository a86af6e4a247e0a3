//! The post-processing rewriter chain applied to rendered HTML, in fixed
//! order: display-math blocks, inline-math spans, list-block wrapping, and
//! code-block language annotation.
//!
//! Each pass scans left to right; at each position it either rewrites the
//! shortest pattern instance starting there and continues after it, or copies
//! one character. The spec functions `*_from` define exactly that.

use vstd::prelude::*;
use crate::text::{
    occurs_at, find_from, find_char_from,
    lemma_find_from_bounds, lemma_find_char_from_bounds,
    matches_at, find_sub, find_ch,
};

verus! {

// ---------------------------------------------------------------------------
// Patterns that the passes scan for. Their characters matter to the proofs,
// so they are written out.
// ---------------------------------------------------------------------------

pub open spec fn bm_open() -> Seq<char> {
    seq!['<', 'p', '>', '$', '$']
}

pub open spec fn ol_open() -> Seq<char> {
    seq!['<', 'o', 'l', '>']
}

pub open spec fn ul_open() -> Seq<char> {
    seq!['<', 'u', 'l', '>']
}

pub open spec fn li_open() -> Seq<char> {
    seq!['<', 'l', 'i', '>']
}

pub open spec fn pre_open() -> Seq<char> {
    seq!['<', 'p', 'r', 'e', '>', '<', 'c', 'o', 'd', 'e', '>']
}

// Closing delimiters and replacement text, as the views of the literals that
// the executable passes append.

pub open spec fn bm_close() -> Seq<char> {
    "$$</p>"@
}

pub open spec fn disp_open() -> Seq<char> {
    "\\["@
}

pub open spec fn disp_close() -> Seq<char> {
    "\\]"@
}

pub open spec fn inl_open() -> Seq<char> {
    "\\("@
}

pub open spec fn inl_close() -> Seq<char> {
    "\\)"@
}

pub open spec fn li_close() -> Seq<char> {
    "</li>"@
}

pub open spec fn ol_close() -> Seq<char> {
    "</ol>"@
}

pub open spec fn ul_close() -> Seq<char> {
    "</ul>"@
}

pub open spec fn div_open() -> Seq<char> {
    "<div style=\"margin-left: 2em;\">"@
}

pub open spec fn div_close() -> Seq<char> {
    "</div>"@
}

pub open spec fn pre_close() -> Seq<char> {
    "</code></pre>"@
}

pub open spec fn code_head() -> Seq<char> {
    "<pre class=\"code-block\"><code class=\""@
}

pub open spec fn quote_close() -> Seq<char> {
    "\">"@
}

// ---------------------------------------------------------------------------
// Pass 1: display math. `<p>$$ ... $$</p>` becomes `\[ ... \]`.
// ---------------------------------------------------------------------------

/// A display-math block starts at `i`: the opener occurs there and a closer
/// follows. `j` names the first closer position.
pub open spec fn block_math_at(s: Seq<char>, i: int) -> bool {
    occurs_at(s, i, bm_open()) && {
        let j = find_from(s, bm_close(), i + 5);
        i + 5 <= j && j + bm_close().len() <= s.len()
    }
}

pub open spec fn block_math_from(s: Seq<char>, i: int) -> Seq<char>
    decreases s.len() - i,
{
    if i < 0 || i >= s.len() {
        Seq::<char>::empty()
    } else if block_math_at(s, i) {
        let j = find_from(s, bm_close(), i + 5);
        disp_open() + s.subrange(i + 5, j) + disp_close() + block_math_from(
            s,
            j + bm_close().len(),
        )
    } else {
        seq![s[i]] + block_math_from(s, i + 1)
    }
}

pub open spec fn block_math_spec(s: Seq<char>) -> Seq<char> {
    block_math_from(s, 0)
}

// ---------------------------------------------------------------------------
// Pass 2: inline math. `$ ... $` on one line, with a nonempty span holding no
// dollar sign and no newline, becomes `\( ... \)`.
// ---------------------------------------------------------------------------

/// An inline-math span starts at `i`: a dollar sign whose first following
/// dollar sign is at least two characters away, with no newline between.
pub open spec fn inline_math_at(s: Seq<char>, i: int) -> bool {
    0 <= i < s.len() && s[i] == '$' && {
        let j = find_char_from(s, '$', i + 1);
        let k = find_char_from(s, '\n', i + 1);
        i + 2 <= j && j < s.len() && (k == -1 || j < k)
    }
}

pub open spec fn inline_math_from(s: Seq<char>, i: int) -> Seq<char>
    decreases s.len() - i,
{
    if i < 0 || i >= s.len() {
        Seq::<char>::empty()
    } else if inline_math_at(s, i) {
        let j = find_char_from(s, '$', i + 1);
        inl_open() + s.subrange(i + 1, j) + inl_close() + inline_math_from(s, j + 1)
    } else {
        seq![s[i]] + inline_math_from(s, i + 1)
    }
}

pub open spec fn inline_math_spec(s: Seq<char>) -> Seq<char> {
    inline_math_from(s, 0)
}

// ---------------------------------------------------------------------------
// Pass 3: list blocks. `<ol>`/`<ul>`, one or more `<li>` items whose content
// stays on one line, then a closing tag, all separated by whitespace, is
// wrapped in a left-margin container.
// ---------------------------------------------------------------------------

pub open spec fn is_ws(c: char) -> bool {
    c == ' ' || c == '\t' || c == '\n' || c == '\r'
}

/// First position at or after `i` holding a non-whitespace character, or the
/// end of `s`.
pub open spec fn skip_ws(s: Seq<char>, i: int) -> int
    decreases s.len() - i,
{
    if i < 0 {
        -1
    } else if i >= s.len() {
        s.len() as int
    } else if is_ws(s[i]) {
        skip_ws(s, i + 1)
    } else {
        i
    }
}

pub proof fn lemma_skip_ws_bounds(s: Seq<char>, i: int)
    requires
        0 <= i <= s.len(),
    ensures
        i <= skip_ws(s, i) <= s.len(),
    decreases s.len() - i,
{
    if i < s.len() && is_ws(s[i]) {
        lemma_skip_ws_bounds(s, i + 1);
    }
}

/// Parses the item sequence of a list block whose opening tag ends at `p`.
/// Returns the position just after the closing tag, or -1 when the text from
/// `p` on is not a well-formed item sequence.
pub open spec fn list_items_end(s: Seq<char>, p: int) -> int
    decreases s.len() - p
        via list_items_end_decreases
{
    if p < 0 || p > s.len() {
        -1
    } else {
        let p1 = skip_ws(s, p);
        if !occurs_at(s, p1, li_open()) {
            -1
        } else {
            let j = find_from(s, li_close(), p1 + 4);
            if j < 0 {
                -1
            } else {
                let k = find_char_from(s, '\n', p1 + 4);
                if k != -1 && k < j {
                    -1
                } else {
                    let p2 = skip_ws(s, j + li_close().len());
                    if occurs_at(s, p2, ol_close()) {
                        p2 + ol_close().len()
                    } else if occurs_at(s, p2, ul_close()) {
                        p2 + ul_close().len()
                    } else if occurs_at(s, p2, li_open()) {
                        list_items_end(s, p2)
                    } else {
                        -1
                    }
                }
            }
        }
    }
}

#[via_fn]
proof fn list_items_end_decreases(s: Seq<char>, p: int) {
    if 0 <= p <= s.len() {
        lemma_skip_ws_bounds(s, p);
        let p1 = skip_ws(s, p);
        if occurs_at(s, p1, li_open()) {
            lemma_find_from_bounds(s, li_close(), p1 + 4);
            let j = find_from(s, li_close(), p1 + 4);
            if j >= 0 {
                lemma_skip_ws_bounds(s, j + li_close().len());
            }
        }
    }
}

pub proof fn lemma_list_items_end_bounds(s: Seq<char>, p: int)
    requires
        0 <= p <= s.len(),
    ensures
        list_items_end(s, p) == -1 || (p < list_items_end(s, p) <= s.len()),
    decreases s.len() - p,
{
    lemma_skip_ws_bounds(s, p);
    let p1 = skip_ws(s, p);
    if occurs_at(s, p1, li_open()) {
        lemma_find_from_bounds(s, li_close(), p1 + 4);
        let j = find_from(s, li_close(), p1 + 4);
        if j >= 0 {
            let k = find_char_from(s, '\n', p1 + 4);
            if !(k != -1 && k < j) {
                lemma_skip_ws_bounds(s, j + li_close().len());
                let p2 = skip_ws(s, j + li_close().len());
                if occurs_at(s, p2, ol_close()) {
                } else if occurs_at(s, p2, ul_close()) {
                } else if occurs_at(s, p2, li_open()) {
                    lemma_list_items_end_bounds(s, p2);
                }
            }
        }
    }
}

/// A list block starts at `i`.
pub open spec fn list_at(s: Seq<char>, i: int) -> bool {
    (occurs_at(s, i, ol_open()) || occurs_at(s, i, ul_open())) && {
        let e = list_items_end(s, i + 4);
        i < e <= s.len()
    }
}

pub open spec fn lists_from(s: Seq<char>, i: int) -> Seq<char>
    decreases s.len() - i,
{
    if i < 0 || i >= s.len() {
        Seq::<char>::empty()
    } else if list_at(s, i) {
        let e = list_items_end(s, i + 4);
        div_open() + s.subrange(i, e) + div_close() + lists_from(s, e)
    } else {
        seq![s[i]] + lists_from(s, i + 1)
    }
}

pub open spec fn lists_spec(s: Seq<char>) -> Seq<char> {
    lists_from(s, 0)
}

// ---------------------------------------------------------------------------
// Pass 4: code blocks. A bare `<pre><code>` block gets a `code-block` class
// and a language class detected from the leading characters of its content.
// ---------------------------------------------------------------------------

/// The detected language class for a code block's content: a naive prefix
/// test on the content's first characters.
pub open spec fn lang_class(code: Seq<char>) -> Seq<char> {
    if occurs_at(code, 0, "python"@) {
        "language-python"@
    } else if occurs_at(code, 0, "vhdl"@) {
        "language-vhdl"@
    } else if occurs_at(code, 0, "cpp"@) {
        "language-cpp"@
    } else if occurs_at(code, 0, "c"@) {
        "language-c"@
    } else {
        "language-none"@
    }
}

/// What a matched code block is rewritten to: the same content, under a
/// `code-block` class and the detected language class.
pub open spec fn code_repl(code: Seq<char>) -> Seq<char> {
    code_head() + lang_class(code) + quote_close() + code + pre_close()
}

pub open spec fn code_at(s: Seq<char>, i: int) -> bool {
    occurs_at(s, i, pre_open()) && {
        let j = find_from(s, pre_close(), i + 11);
        i + 11 <= j && j + pre_close().len() <= s.len()
    }
}

pub open spec fn code_blocks_from(s: Seq<char>, i: int) -> Seq<char>
    decreases s.len() - i,
{
    if i < 0 || i >= s.len() {
        Seq::<char>::empty()
    } else if code_at(s, i) {
        let j = find_from(s, pre_close(), i + 11);
        code_repl(s.subrange(i + 11, j)) + code_blocks_from(s, j + pre_close().len())
    } else {
        seq![s[i]] + code_blocks_from(s, i + 1)
    }
}

pub open spec fn code_blocks_spec(s: Seq<char>) -> Seq<char> {
    code_blocks_from(s, 0)
}

/// The whole rewriter chain, in the order the passes run.
pub open spec fn rewrite_chain(s: Seq<char>) -> Seq<char> {
    code_blocks_spec(lists_spec(inline_math_spec(block_math_spec(s))))
}

// ---------------------------------------------------------------------------
// Executable passes.
// ---------------------------------------------------------------------------

/// Replaces each paragraph-wrapped `$$ ... $$` block with `\[ ... \]`.
pub fn pass_block_math(s: &str) -> (r: String)
    ensures
        r@ == block_math_spec(s@),
{
    let n = s.unicode_len();
    let mut out = String::new();
    let mut i: usize = 0;
    while i < n
        invariant
            i <= n,
            n == s@.len(),
            out@ + block_math_from(s@, i as int) == block_math_spec(s@),
        decreases n - i,
    {
        proof {
            reveal_strlit("<p>$$");
            assert("<p>$$"@ =~= bm_open());
        }
        let ghost i0 = i as int;
        let mut plain = true;
        if matches_at(s, i, "<p>$$") {
            if let Some(j) = find_sub(s, "$$</p>", i + 5) {
                proof {
                    lemma_find_from_bounds(s@, bm_close(), i + 5);
                    assert(block_math_at(s@, i as int));
                }
                out.append("\\[");
                out.append(s.substring_char(i + 5, j));
                out.append("\\]");
                let m = "$$</p>".unicode_len();
                proof {
                    assert(block_math_from(s@, i0) == disp_open() + s@.subrange(i0 + 5, j as int)
                        + disp_close() + block_math_from(s@, j + bm_close().len()));
                    assert(out@ + block_math_from(s@, j + bm_close().len()) =~= block_math_spec(
                        s@,
                    ));
                }
                i = j + m;
                plain = false;
            } else {
                proof {
                    assert(!block_math_at(s@, i0));
                }
            }
        }
        if plain {
            out.append(s.substring_char(i, i + 1));
            proof {
                assert(seq![s@[i0]] =~= s@.subrange(i0, i0 + 1));
                assert(block_math_from(s@, i0) == seq![s@[i0]] + block_math_from(s@, i0 + 1));
                assert(out@ + block_math_from(s@, i0 + 1) =~= block_math_spec(s@));
            }
            i = i + 1;
        }
    }
    proof {
        assert(block_math_from(s@, n as int) =~= Seq::<char>::empty());
        assert(out@ + block_math_from(s@, n as int) =~= out@);
    }
    out
}

/// Replaces each single-line `$ ... $` span with `\( ... \)`.
pub fn pass_inline_math(s: &str) -> (r: String)
    ensures
        r@ == inline_math_spec(s@),
{
    let n = s.unicode_len();
    let mut out = String::new();
    let mut i: usize = 0;
    while i < n
        invariant
            i <= n,
            n == s@.len(),
            out@ + inline_math_from(s@, i as int) == inline_math_spec(s@),
        decreases n - i,
    {
        let ghost i0 = i as int;
        let mut plain = true;
        if s.get_char(i) == '$' {
            if let Some(j) = find_ch(s, '$', i + 1) {
                proof {
                    lemma_find_char_from_bounds(s@, '$', i + 1);
                }
                let nl = find_ch(s, '\n', i + 1);
                let line_ok = match nl {
                    Some(k) => j < k,
                    None => true,
                };
                if j >= i + 2 && line_ok {
                    proof {
                        assert(inline_math_at(s@, i0));
                    }
                    out.append("\\(");
                    out.append(s.substring_char(i + 1, j));
                    out.append("\\)");
                    proof {
                        assert(inline_math_from(s@, i0) == inl_open() + s@.subrange(
                            i0 + 1,
                            j as int,
                        ) + inl_close() + inline_math_from(s@, j + 1));
                        assert(out@ + inline_math_from(s@, j + 1) =~= inline_math_spec(s@));
                    }
                    i = j + 1;
                    plain = false;
                } else {
                    proof {
                        assert(!inline_math_at(s@, i0));
                    }
                }
            } else {
                proof {
                    assert(!inline_math_at(s@, i0));
                }
            }
        }
        if plain {
            out.append(s.substring_char(i, i + 1));
            proof {
                assert(seq![s@[i0]] =~= s@.subrange(i0, i0 + 1));
                assert(inline_math_from(s@, i0) == seq![s@[i0]] + inline_math_from(s@, i0 + 1));
                assert(out@ + inline_math_from(s@, i0 + 1) =~= inline_math_spec(s@));
            }
            i = i + 1;
        }
    }
    proof {
        assert(inline_math_from(s@, n as int) =~= Seq::<char>::empty());
        assert(out@ + inline_math_from(s@, n as int) =~= out@);
    }
    out
}

/// Skips whitespace starting at `p`.
fn skip_ws_exec(s: &str, p: usize) -> (r: usize)
    requires
        p <= s@.len(),
    ensures
        r as int == skip_ws(s@, p as int),
        p <= r <= s@.len(),
{
    let n = s.unicode_len();
    let mut q = p;
    while q < n
        invariant
            p <= q <= n,
            n == s@.len(),
            skip_ws(s@, p as int) == skip_ws(s@, q as int),
        decreases n - q,
    {
        let c = s.get_char(q);
        if !(c == ' ' || c == '\t' || c == '\n' || c == '\r') {
            return q;
        }
        q += 1;
    }
    q
}

/// Parses an item sequence as `list_items_end` describes it.
fn find_items_end(s: &str, p: usize) -> (r: Option<usize>)
    requires
        p <= s@.len(),
    ensures
        match r {
            Some(e) => list_items_end(s@, p as int) == e as int && p < e <= s@.len(),
            None => list_items_end(s@, p as int) == -1,
        },
{
    proof {
        reveal_strlit("<li>");
        assert("<li>"@ =~= li_open());
    }
    let n = s.unicode_len();
    let mut q = p;
    loop
        invariant
            p <= q <= n,
            n == s@.len(),
            list_items_end(s@, p as int) == list_items_end(s@, q as int),
        decreases n - q,
    {
        proof {
            reveal_strlit("<li>");
            assert("<li>"@ =~= li_open());
        }
        let ghost q0 = q as int;
        let p1 = skip_ws_exec(s, q);
        if !matches_at(s, p1, "<li>") {
            return None;
        }
        let j = match find_sub(s, "</li>", p1 + 4) {
            None => {
                return None;
            },
            Some(j) => j,
        };
        proof {
            lemma_find_from_bounds(s@, li_close(), p1 + 4);
        }
        if let Some(k) = find_ch(s, '\n', p1 + 4) {
            if k < j {
                return None;
            }
        }
        let mclose = "</li>".unicode_len();
        let p2 = skip_ws_exec(s, j + mclose);
        if matches_at(s, p2, "</ol>") {
            proof {
                lemma_list_items_end_bounds(s@, q0);
            }
            return Some(p2 + "</ol>".unicode_len());
        } else if matches_at(s, p2, "</ul>") {
            proof {
                lemma_list_items_end_bounds(s@, q0);
            }
            return Some(p2 + "</ul>".unicode_len());
        } else if matches_at(s, p2, "<li>") {
            proof {
                assert(list_items_end(s@, q0) == list_items_end(s@, p2 as int));
            }
            q = p2;
        } else {
            return None;
        }
    }
}

/// Wraps each list block in a left-margin container element.
pub fn pass_lists(s: &str) -> (r: String)
    ensures
        r@ == lists_spec(s@),
{
    let n = s.unicode_len();
    let mut out = String::new();
    let mut i: usize = 0;
    while i < n
        invariant
            i <= n,
            n == s@.len(),
            out@ + lists_from(s@, i as int) == lists_spec(s@),
        decreases n - i,
    {
        proof {
            reveal_strlit("<ol>");
            reveal_strlit("<ul>");
            assert("<ol>"@ =~= ol_open());
            assert("<ul>"@ =~= ul_open());
        }
        let ghost i0 = i as int;
        let mut plain = true;
        if matches_at(s, i, "<ol>") || matches_at(s, i, "<ul>") {
            if let Some(e) = find_items_end(s, i + 4) {
                proof {
                    assert(list_at(s@, i0));
                }
                out.append("<div style=\"margin-left: 2em;\">");
                out.append(s.substring_char(i, e));
                out.append("</div>");
                proof {
                    assert(lists_from(s@, i0) == div_open() + s@.subrange(i0, e as int)
                        + div_close() + lists_from(s@, e as int));
                    assert(out@ + lists_from(s@, e as int) =~= lists_spec(s@));
                }
                i = e;
                plain = false;
            } else {
                proof {
                    assert(!list_at(s@, i0));
                }
            }
        }
        if plain {
            out.append(s.substring_char(i, i + 1));
            proof {
                assert(seq![s@[i0]] =~= s@.subrange(i0, i0 + 1));
                assert(lists_from(s@, i0) == seq![s@[i0]] + lists_from(s@, i0 + 1));
                assert(out@ + lists_from(s@, i0 + 1) =~= lists_spec(s@));
            }
            i = i + 1;
        }
    }
    proof {
        assert(lists_from(s@, n as int) =~= Seq::<char>::empty());
        assert(out@ + lists_from(s@, n as int) =~= out@);
    }
    out
}

/// The language class detected from a code block's leading characters.
pub fn classify_language(code: &str) -> (r: String)
    ensures
        r@ == lang_class(code@),
{
    if matches_at(code, 0, "python") {
        String::from_str("language-python")
    } else if matches_at(code, 0, "vhdl") {
        String::from_str("language-vhdl")
    } else if matches_at(code, 0, "cpp") {
        String::from_str("language-cpp")
    } else if matches_at(code, 0, "c") {
        String::from_str("language-c")
    } else {
        String::from_str("language-none")
    }
}

/// Annotates each bare code block with a `code-block` class and a detected
/// language class, keeping its content.
pub fn pass_code_blocks(s: &str) -> (r: String)
    ensures
        r@ == code_blocks_spec(s@),
{
    let n = s.unicode_len();
    let mut out = String::new();
    let mut i: usize = 0;
    while i < n
        invariant
            i <= n,
            n == s@.len(),
            out@ + code_blocks_from(s@, i as int) == code_blocks_spec(s@),
        decreases n - i,
    {
        proof {
            reveal_strlit("<pre><code>");
            assert("<pre><code>"@ =~= pre_open());
        }
        let ghost i0 = i as int;
        let mut plain = true;
        if matches_at(s, i, "<pre><code>") {
            if let Some(j) = find_sub(s, "</code></pre>", i + 11) {
                proof {
                    lemma_find_from_bounds(s@, pre_close(), i + 11);
                    assert(code_at(s@, i0));
                }
                let inner = s.substring_char(i + 11, j);
                let lang = classify_language(inner);
                out.append("<pre class=\"code-block\"><code class=\"");
                out.append(lang.as_str());
                out.append("\">");
                out.append(inner);
                out.append("</code></pre>");
                let m = "</code></pre>".unicode_len();
                proof {
                    assert(code_blocks_from(s@, i0) == code_repl(s@.subrange(i0 + 11, j as int))
                        + code_blocks_from(s@, j + pre_close().len()));
                    assert(out@ + code_blocks_from(s@, j + pre_close().len())
                        =~= code_blocks_spec(s@));
                }
                i = j + m;
                plain = false;
            } else {
                proof {
                    assert(!code_at(s@, i0));
                }
            }
        }
        if plain {
            out.append(s.substring_char(i, i + 1));
            proof {
                assert(seq![s@[i0]] =~= s@.subrange(i0, i0 + 1));
                assert(code_blocks_from(s@, i0) == seq![s@[i0]] + code_blocks_from(s@, i0 + 1));
                assert(out@ + code_blocks_from(s@, i0 + 1) =~= code_blocks_spec(s@));
            }
            i = i + 1;
        }
    }
    proof {
        assert(code_blocks_from(s@, n as int) =~= Seq::<char>::empty());
        assert(out@ + code_blocks_from(s@, n as int) =~= out@);
    }
    out
}

// ---------------------------------------------------------------------------
// Laws of the rewriter chain.
// ---------------------------------------------------------------------------

/// The character `c` occurs nowhere in `t`.
pub open spec fn no_char(t: Seq<char>, c: char) -> bool {
    forall|k: int| 0 <= k < t.len() ==> t[k] != c
}

/// The pattern `pat` occurs nowhere in `t`.
pub open spec fn no_sub(t: Seq<char>, pat: Seq<char>) -> bool {
    forall|j: int| !occurs_at(t, j, pat)
}

/// Text on which the rewriter chain has nothing left to do: no dollar sign
/// (so no math delimiters), no list opening tag, and no bare code block
/// opening.
pub open spec fn rewriter_quiescent(t: Seq<char>) -> bool {
    no_char(t, '$') && no_sub(t, ol_open()) && no_sub(t, ul_open()) && no_sub(t, pre_open())
}

proof fn lemma_block_math_identity(s: Seq<char>, i: int)
    requires
        0 <= i <= s.len(),
        no_char(s, '$'),
    ensures
        block_math_from(s, i) == s.subrange(i, s.len() as int),
    decreases s.len() - i,
{
    if i >= s.len() {
        assert(s.subrange(i, s.len() as int) =~= Seq::<char>::empty());
    } else {
        if occurs_at(s, i, bm_open()) {
            assert(s.subrange(i, i + 5)[3] == '$');
            assert(s[i + 3] == '$');
            assert(false);
        }
        lemma_block_math_identity(s, i + 1);
        assert(block_math_from(s, i) == seq![s[i]] + block_math_from(s, i + 1));
        assert(seq![s[i]] + s.subrange(i + 1, s.len() as int) =~= s.subrange(i, s.len() as int));
    }
}

proof fn lemma_inline_math_identity(s: Seq<char>, i: int)
    requires
        0 <= i <= s.len(),
        no_char(s, '$'),
    ensures
        inline_math_from(s, i) == s.subrange(i, s.len() as int),
    decreases s.len() - i,
{
    if i >= s.len() {
        assert(s.subrange(i, s.len() as int) =~= Seq::<char>::empty());
    } else {
        assert(s[i] != '$');
        lemma_inline_math_identity(s, i + 1);
        assert(inline_math_from(s, i) == seq![s[i]] + inline_math_from(s, i + 1));
        assert(seq![s[i]] + s.subrange(i + 1, s.len() as int) =~= s.subrange(i, s.len() as int));
    }
}

proof fn lemma_lists_identity(s: Seq<char>, i: int)
    requires
        0 <= i <= s.len(),
        no_sub(s, ol_open()),
        no_sub(s, ul_open()),
    ensures
        lists_from(s, i) == s.subrange(i, s.len() as int),
    decreases s.len() - i,
{
    if i >= s.len() {
        assert(s.subrange(i, s.len() as int) =~= Seq::<char>::empty());
    } else {
        assert(!occurs_at(s, i, ol_open()));
        assert(!occurs_at(s, i, ul_open()));
        lemma_lists_identity(s, i + 1);
        assert(lists_from(s, i) == seq![s[i]] + lists_from(s, i + 1));
        assert(seq![s[i]] + s.subrange(i + 1, s.len() as int) =~= s.subrange(i, s.len() as int));
    }
}

proof fn lemma_code_blocks_identity(s: Seq<char>, i: int)
    requires
        0 <= i <= s.len(),
        no_sub(s, pre_open()),
    ensures
        code_blocks_from(s, i) == s.subrange(i, s.len() as int),
    decreases s.len() - i,
{
    if i >= s.len() {
        assert(s.subrange(i, s.len() as int) =~= Seq::<char>::empty());
    } else {
        assert(!occurs_at(s, i, pre_open()));
        lemma_code_blocks_identity(s, i + 1);
        assert(code_blocks_from(s, i) == seq![s[i]] + code_blocks_from(s, i + 1));
        assert(seq![s[i]] + s.subrange(i + 1, s.len() as int) =~= s.subrange(i, s.len() as int));
    }
}

/// Law: the rewriter chain leaves quiescent text unchanged.
pub proof fn lemma_rewrite_chain_fixed(t: Seq<char>)
    requires
        rewriter_quiescent(t),
    ensures
        rewrite_chain(t) == t,
{
    lemma_block_math_identity(t, 0);
    assert(t.subrange(0, t.len() as int) =~= t);
    lemma_inline_math_identity(t, 0);
    lemma_lists_identity(t, 0);
    lemma_code_blocks_identity(t, 0);
}

/// Law: applying the rewriter chain twice produces no further change, for any
/// input whose processed form retains no rewritable markup (no leftover
/// dollar sign, list opening tag, or bare code-block opening). Math
/// delimiters already replaced are not re-replaced and code blocks already
/// classified are not re-classified, since neither replacement reintroduces
/// such markup.
pub proof fn lemma_rewrite_chain_idempotent(s: Seq<char>)
    requires
        rewriter_quiescent(rewrite_chain(s)),
    ensures
        rewrite_chain(rewrite_chain(s)) == rewrite_chain(s),
{
    lemma_rewrite_chain_fixed(rewrite_chain(s));
}

/// Law: a bare code block is annotated with the language class detected from
/// its content, for any content free of markup of its own: content beginning
/// with `python` gets class `language-python`, `cpp` gets `language-cpp`,
/// unrelated content gets `language-none`.
pub proof fn lemma_code_block_annotation(c: Seq<char>)
    requires
        no_char(c, '<'),
    ensures
        code_blocks_spec(pre_open() + c + pre_close()) == code_repl(c),
{
    reveal_strlit("</code></pre>");
    let s = pre_open() + c + pre_close();
    let e = 11 + c.len() as int;
    assert(s.subrange(0, 11) =~= pre_open());
    assert(occurs_at(s, 0, pre_open()));
    assert(s.subrange(e, e + 13) =~= pre_close());
    assert(occurs_at(s, e, pre_close()));
    assert forall|k: int| 11 <= k < e implies !occurs_at(s, k, pre_close()) by {
        if occurs_at(s, k, pre_close()) {
            assert(s.subrange(k, k + 13)[0] == '<');
            assert(s[k] == '<');
            assert(c[k - 11] == '<');
        }
    }
    crate::text::lemma_find_from_exact(s, pre_close(), 11, e);
    assert(code_at(s, 0));
    assert(s.subrange(11, e) =~= c);
    assert(code_blocks_from(s, 0) == code_repl(c) + code_blocks_from(s, e + 13));
    assert(code_blocks_from(s, e + 13) =~= Seq::<char>::empty());
    assert(code_repl(c) + Seq::<char>::empty() =~= code_repl(c));
}

} // verus!

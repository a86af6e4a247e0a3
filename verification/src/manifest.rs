//! The manifest writer: aggregates the front-matter records of one content
//! type into a single generated source file exporting an ordered list of
//! entry objects (slug, title, authors, date, tags).

use vstd::prelude::*;
use crate::front_matter::{Author, FrontMatter};

verus! {

// ---------------------------------------------------------------------------
// Escaping inside the generated file's literals.
// ---------------------------------------------------------------------------

/// How one character appears inside a single-quoted literal of the manifest:
/// a single quote is escaped, everything else stands as itself.
pub open spec fn sq_escape_char(c: char) -> Seq<char> {
    if c == '\'' {
        seq!['\\', '\'']
    } else {
        seq![c]
    }
}

pub open spec fn sq_escaped_from(s: Seq<char>, i: int) -> Seq<char>
    decreases s.len() - i,
{
    if i < 0 || i >= s.len() {
        Seq::<char>::empty()
    } else {
        sq_escape_char(s[i]) + sq_escaped_from(s, i + 1)
    }
}

pub open spec fn sq_escaped(s: Seq<char>) -> Seq<char> {
    sq_escaped_from(s, 0)
}

fn append_sq_escaped(out: &mut String, s: &str)
    ensures
        final(out)@ == old(out)@ + sq_escaped(s@),
{
    let n = s.unicode_len();
    let mut i: usize = 0;
    while i < n
        invariant
            i <= n,
            n == s@.len(),
            out@ + sq_escaped_from(s@, i as int) == old(out)@ + sq_escaped(s@),
        decreases n - i,
    {
        let ghost i0 = i as int;
        let c = s.get_char(i);
        if c == '\'' {
            out.append("\\'");
            proof {
                reveal_strlit("\\'");
                assert("\\'"@ =~= sq_escape_char('\''));
            }
        } else {
            out.append(s.substring_char(i, i + 1));
            proof {
                assert(s@.subrange(i0, i0 + 1) =~= sq_escape_char(s@[i0]));
            }
        }
        proof {
            assert(sq_escaped_from(s@, i0) == sq_escape_char(s@[i0]) + sq_escaped_from(
                s@,
                i0 + 1,
            ));
            assert(out@ + sq_escaped_from(s@, i0 + 1) =~= old(out)@ + sq_escaped(s@));
        }
        i += 1;
    }
    proof {
        assert(sq_escaped_from(s@, n as int) =~= Seq::<char>::empty());
        assert(out@ + sq_escaped_from(s@, n as int) =~= out@);
    }
}

/// How one character appears inside a double-quoted tag literal: quote,
/// backslash and the common control characters escaped, everything else as
/// itself.
pub open spec fn dq_escape_char(c: char) -> Seq<char> {
    if c == '"' {
        seq!['\\', '"']
    } else if c == '\\' {
        seq!['\\', '\\']
    } else if c == '\n' {
        seq!['\\', 'n']
    } else if c == '\r' {
        seq!['\\', 'r']
    } else if c == '\t' {
        seq!['\\', 't']
    } else {
        seq![c]
    }
}

pub open spec fn dq_escaped_from(s: Seq<char>, i: int) -> Seq<char>
    decreases s.len() - i,
{
    if i < 0 || i >= s.len() {
        Seq::<char>::empty()
    } else {
        dq_escape_char(s[i]) + dq_escaped_from(s, i + 1)
    }
}

pub open spec fn dq_escaped(s: Seq<char>) -> Seq<char> {
    dq_escaped_from(s, 0)
}

fn append_dq_escaped(out: &mut String, s: &str)
    ensures
        final(out)@ == old(out)@ + dq_escaped(s@),
{
    let n = s.unicode_len();
    let mut i: usize = 0;
    while i < n
        invariant
            i <= n,
            n == s@.len(),
            out@ + dq_escaped_from(s@, i as int) == old(out)@ + dq_escaped(s@),
        decreases n - i,
    {
        let ghost i0 = i as int;
        let c = s.get_char(i);
        if c == '"' {
            out.append("\\\"");
            proof {
                reveal_strlit("\\\"");
                assert("\\\""@ =~= dq_escape_char('"'));
            }
        } else if c == '\\' {
            out.append("\\\\");
            proof {
                reveal_strlit("\\\\");
                assert("\\\\"@ =~= dq_escape_char('\\'));
            }
        } else if c == '\n' {
            out.append("\\n");
            proof {
                reveal_strlit("\\n");
                assert("\\n"@ =~= dq_escape_char('\n'));
            }
        } else if c == '\r' {
            out.append("\\r");
            proof {
                reveal_strlit("\\r");
                assert("\\r"@ =~= dq_escape_char('\r'));
            }
        } else if c == '\t' {
            out.append("\\t");
            proof {
                reveal_strlit("\\t");
                assert("\\t"@ =~= dq_escape_char('\t'));
            }
        } else {
            out.append(s.substring_char(i, i + 1));
            proof {
                assert(s@.subrange(i0, i0 + 1) =~= dq_escape_char(s@[i0]));
            }
        }
        proof {
            assert(dq_escaped_from(s@, i0) == dq_escape_char(s@[i0]) + dq_escaped_from(
                s@,
                i0 + 1,
            ));
            assert(out@ + dq_escaped_from(s@, i0 + 1) =~= old(out)@ + dq_escaped(s@));
        }
        i += 1;
    }
    proof {
        assert(dq_escaped_from(s@, n as int) =~= Seq::<char>::empty());
        assert(out@ + dq_escaped_from(s@, n as int) =~= out@);
    }
}

// ---------------------------------------------------------------------------
// The tag list, as a bracketed list of double-quoted literals.
// ---------------------------------------------------------------------------

pub open spec fn tag_item(s: Seq<char>) -> Seq<char> {
    seq!['"'] + dq_escaped(s) + seq!['"']
}

pub open spec fn tag_items(tags: Seq<String>) -> Seq<char>
    decreases tags.len(),
{
    if tags.len() == 0 {
        Seq::<char>::empty()
    } else if tags.len() == 1 {
        tag_item(tags[0]@)
    } else {
        tag_items(tags.drop_last()) + ", "@ + tag_item(tags.last()@)
    }
}

pub open spec fn tag_list_spec(tags: Seq<String>) -> Seq<char> {
    seq!['['] + tag_items(tags) + seq![']']
}

/// The tag list as the manifest shows it: `["a", "b"]`.
pub fn tag_list(tags: &Vec<String>) -> (r: String)
    ensures
        r@ == tag_list_spec(tags@),
{
    let mut out = String::new();
    out.append("[");
    proof {
        reveal_strlit("[");
        assert("["@ =~= seq!['[']);
        assert(tag_items(tags@.take(0)) =~= Seq::<char>::empty());
        assert(out@ =~= seq!['['] + tag_items(tags@.take(0)));
    }
    let n = tags.len();
    let mut i: usize = 0;
    while i < n
        invariant
            i <= n,
            n == tags@.len(),
            out@ == seq!['['] + tag_items(tags@.take(i as int)),
        decreases n - i,
    {
        let ghost i0 = i as int;
        if i > 0 {
            out.append(", ");
        }
        out.append("\"");
        append_dq_escaped(&mut out, tags[i].as_str());
        out.append("\"");
        proof {
            reveal_strlit("\"");
            assert("\""@ =~= seq!['"']);
            assert(tags@.take(i0 + 1).drop_last() =~= tags@.take(i0));
            assert(tags@.take(i0 + 1).last() == tags@[i0]);
            if i0 == 0 {
                assert(tag_items(tags@.take(1)) == tag_item(tags@[0]@));
            } else {
                assert(tag_items(tags@.take(i0 + 1)) == tag_items(tags@.take(i0)) + ", "@
                    + tag_item(tags@[i0]@));
            }
            assert(out@ =~= seq!['['] + tag_items(tags@.take(i0 + 1)));
        }
        i += 1;
    }
    out.append("]");
    proof {
        reveal_strlit("]");
        assert("]"@ =~= seq![']']);
        assert(tags@.take(n as int) =~= tags@);
        assert(out@ =~= tag_list_spec(tags@));
    }
    out
}

// ---------------------------------------------------------------------------
// Entries and the whole manifest.
// ---------------------------------------------------------------------------

/// One author's line of an entry.
pub open spec fn author_line_spec(a: Author) -> Seq<char> {
    "      { name: '"@ + sq_escaped(a.name@) + "', "@ + (match a.url {
        Some(u) => "url: '"@ + sq_escaped(u@) + "' },\n"@,
        None => "url: null },\n"@,
    })
}

pub open spec fn author_lines_spec(authors: Seq<Author>) -> Seq<char>
    decreases authors.len(),
{
    if authors.len() == 0 {
        Seq::<char>::empty()
    } else {
        author_lines_spec(authors.drop_last()) + author_line_spec(authors.last())
    }
}

/// One record's entry object in the manifest.
pub open spec fn entry_spec(fm: FrontMatter) -> Seq<char> {
    "  {\n    slug: '"@ + fm.slug@ + "',\n    title: '"@ + sq_escaped(fm.title@)
        + "',\n    authors: [\n"@ + author_lines_spec(fm.authors@) + "    ],\n    date: '"@
        + fm.date@ + "',\n    tags: "@ + tag_list_spec(fm.tags@) + "\n  },\n"@
}

pub open spec fn entries_spec(fms: Seq<FrontMatter>) -> Seq<char>
    decreases fms.len(),
{
    if fms.len() == 0 {
        Seq::<char>::empty()
    } else {
        entries_spec(fms.drop_last()) + entry_spec(fms.last())
    }
}

/// The header naming the exported list of one content type.
pub open spec fn manifest_header(is_article: bool) -> Seq<char> {
    if is_article {
        "export const articles = [\n"@
    } else {
        "export const projects = [\n"@
    }
}

/// The whole generated manifest file for one content type: the header, one
/// entry object per record in order, and the closing bracket.
pub open spec fn manifest_text(fms: Seq<FrontMatter>, is_article: bool) -> Seq<char> {
    manifest_header(is_article) + entries_spec(fms) + "];\n"@
}

fn append_entry(out: &mut String, fm: &FrontMatter)
    ensures
        final(out)@ == old(out)@ + entry_spec(*fm),
{
    out.append("  {\n    slug: '");
    out.append(fm.slug.as_str());
    out.append("',\n    title: '");
    append_sq_escaped(out, fm.title.as_str());
    out.append("',\n    authors: [\n");
    let ghost mid0 = out@;
    let n = fm.authors.len();
    let mut i: usize = 0;
    while i < n
        invariant
            i <= n,
            n == fm.authors@.len(),
            out@ == mid0 + author_lines_spec(fm.authors@.take(i as int)),
        decreases n - i,
    {
        let ghost i0 = i as int;
        out.append("      { name: '");
        append_sq_escaped(out, fm.authors[i].name.as_str());
        out.append("', ");
        match &fm.authors[i].url {
            Some(u) => {
                out.append("url: '");
                append_sq_escaped(out, u.as_str());
                out.append("' },\n");
            },
            None => {
                out.append("url: null },\n");
            },
        }
        proof {
            assert(fm.authors@.take(i0 + 1).drop_last() =~= fm.authors@.take(i0));
            assert(fm.authors@.take(i0 + 1).last() == fm.authors@[i0]);
            assert(author_lines_spec(fm.authors@.take(i0 + 1)) == author_lines_spec(
                fm.authors@.take(i0),
            ) + author_line_spec(fm.authors@[i0]));
            assert(out@ =~= mid0 + author_lines_spec(fm.authors@.take(i0 + 1)));
        }
        i += 1;
    }
    proof {
        assert(fm.authors@.take(n as int) =~= fm.authors@);
    }
    out.append("    ],\n    date: '");
    out.append(fm.date.as_str());
    out.append("',\n    tags: ");
    let tags = tag_list(&fm.tags);
    out.append(tags.as_str());
    out.append("\n  },\n");
    proof {
        assert(out@ =~= old(out)@ + entry_spec(*fm));
    }
}

/// Renders the manifest file content for one content type's records.
pub fn generate_data(frontmatters: &Vec<FrontMatter>, is_article: bool) -> (r: String)
    ensures
        r@ == manifest_text(frontmatters@, is_article),
{
    let mut out = String::new();
    if is_article {
        out.append("export const articles = [\n");
    } else {
        out.append("export const projects = [\n");
    }
    proof {
        assert(entries_spec(frontmatters@.take(0)) =~= Seq::<char>::empty());
        assert(out@ =~= manifest_header(is_article) + entries_spec(frontmatters@.take(0)));
    }
    let n = frontmatters.len();
    let mut i: usize = 0;
    while i < n
        invariant
            i <= n,
            n == frontmatters@.len(),
            out@ == manifest_header(is_article) + entries_spec(frontmatters@.take(i as int)),
        decreases n - i,
    {
        let ghost i0 = i as int;
        append_entry(&mut out, &frontmatters[i]);
        proof {
            assert(frontmatters@.take(i0 + 1).drop_last() =~= frontmatters@.take(i0));
            assert(frontmatters@.take(i0 + 1).last() == frontmatters@[i0]);
            assert(entries_spec(frontmatters@.take(i0 + 1)) == entries_spec(
                frontmatters@.take(i0),
            ) + entry_spec(frontmatters@[i0]));
            assert(out@ =~= manifest_header(is_article) + entries_spec(
                frontmatters@.take(i0 + 1),
            ));
        }
        i += 1;
    }
    out.append("];\n");
    proof {
        assert(frontmatters@.take(n as int) =~= frontmatters@);
        assert(out@ =~= manifest_text(frontmatters@, is_article));
    }
    out
}

} // verus!

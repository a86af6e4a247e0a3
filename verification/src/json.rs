//! JSON encoding of the values the page template embeds: strings, string
//! lists, and author lists. This is the template's data-binding contract: the
//! compact form, with the escapes JSON requires of string content.

use vstd::prelude::*;
use crate::front_matter::Author;

verus! {

/// The lowercase hexadecimal digit of `v`.
pub open spec fn hex_char(v: int) -> char {
    if v == 10 {
        'a'
    } else if v == 11 {
        'b'
    } else if v == 12 {
        'c'
    } else if v == 13 {
        'd'
    } else if v == 14 {
        'e'
    } else if v == 15 {
        'f'
    } else {
        crate::date::digit_char(v)
    }
}

/// How one character appears inside a JSON string literal: quote and
/// backslash escaped, the common control characters in short form, any other
/// control character as a four-digit escape, everything else as itself.
pub open spec fn json_escape_char(c: char) -> Seq<char> {
    if c == '"' {
        seq!['\\', '"']
    } else if c == '\\' {
        seq!['\\', '\\']
    } else if c == '\n' {
        seq!['\\', 'n']
    } else if c == '\r' {
        seq!['\\', 'r']
    } else if c == '\t' {
        seq!['\\', 't']
    } else if c == '\u{8}' {
        seq!['\\', 'b']
    } else if c == '\u{c}' {
        seq!['\\', 'f']
    } else if (c as int) < 32 {
        seq!['\\', 'u', '0', '0', hex_char((c as int) / 16), hex_char((c as int) % 16)]
    } else {
        seq![c]
    }
}

pub open spec fn json_escaped_from(s: Seq<char>, i: int) -> Seq<char>
    decreases s.len() - i,
{
    if i < 0 || i >= s.len() {
        Seq::<char>::empty()
    } else {
        json_escape_char(s[i]) + json_escaped_from(s, i + 1)
    }
}

/// The content of `s` as it appears inside a JSON string literal.
pub open spec fn json_escaped(s: Seq<char>) -> Seq<char> {
    json_escaped_from(s, 0)
}

/// `s` as a JSON string literal, quotes included.
pub open spec fn json_string_spec(s: Seq<char>) -> Seq<char> {
    seq!['"'] + json_escaped(s) + seq!['"']
}

fn append_hex_digit(out: &mut String, v: u32)
    requires
        v <= 15,
    ensures
        final(out)@ == old(out)@ + seq![hex_char(v as int)],
{
    if v == 10 {
        out.append("a");
        proof {
            reveal_strlit("a");
            assert("a"@ =~= seq![hex_char(10)]);
        }
    } else if v == 11 {
        out.append("b");
        proof {
            reveal_strlit("b");
            assert("b"@ =~= seq![hex_char(11)]);
        }
    } else if v == 12 {
        out.append("c");
        proof {
            reveal_strlit("c");
            assert("c"@ =~= seq![hex_char(12)]);
        }
    } else if v == 13 {
        out.append("d");
        proof {
            reveal_strlit("d");
            assert("d"@ =~= seq![hex_char(13)]);
        }
    } else if v == 14 {
        out.append("e");
        proof {
            reveal_strlit("e");
            assert("e"@ =~= seq![hex_char(14)]);
        }
    } else if v == 15 {
        out.append("f");
        proof {
            reveal_strlit("f");
            assert("f"@ =~= seq![hex_char(15)]);
        }
    } else {
        crate::date::append_digit(out, v);
    }
}

/// Appends the JSON-escaped content of `s`.
fn append_json_escaped(out: &mut String, s: &str)
    ensures
        final(out)@ == old(out)@ + json_escaped(s@),
{
    let n = s.unicode_len();
    let mut i: usize = 0;
    while i < n
        invariant
            i <= n,
            n == s@.len(),
            out@ + json_escaped_from(s@, i as int) == old(out)@ + json_escaped(s@),
        decreases n - i,
    {
        let ghost i0 = i as int;
        let c = s.get_char(i);
        if c == '"' {
            out.append("\\\"");
            proof {
                reveal_strlit("\\\"");
                assert("\\\""@ =~= json_escape_char('"'));
            }
        } else if c == '\\' {
            out.append("\\\\");
            proof {
                reveal_strlit("\\\\");
                assert("\\\\"@ =~= json_escape_char('\\'));
            }
        } else if c == '\n' {
            out.append("\\n");
            proof {
                reveal_strlit("\\n");
                assert("\\n"@ =~= json_escape_char('\n'));
            }
        } else if c == '\r' {
            out.append("\\r");
            proof {
                reveal_strlit("\\r");
                assert("\\r"@ =~= json_escape_char('\r'));
            }
        } else if c == '\t' {
            out.append("\\t");
            proof {
                reveal_strlit("\\t");
                assert("\\t"@ =~= json_escape_char('\t'));
            }
        } else if c == '\u{8}' {
            out.append("\\b");
            proof {
                reveal_strlit("\\b");
                assert("\\b"@ =~= json_escape_char('\u{8}'));
            }
        } else if c == '\u{c}' {
            out.append("\\f");
            proof {
                reveal_strlit("\\f");
                assert("\\f"@ =~= json_escape_char('\u{c}'));
            }
        } else if (c as u32) < 32 {
            out.append("\\u00");
            append_hex_digit(out, (c as u32) / 16);
            append_hex_digit(out, (c as u32) % 16);
            proof {
                reveal_strlit("\\u00");
                assert(("\\u00"@ + seq![hex_char(c as int / 16)]) + seq![hex_char(c as int % 16)]
                    =~= json_escape_char(c));
            }
        } else {
            out.append(s.substring_char(i, i + 1));
            proof {
                assert(s@.subrange(i0, i0 + 1) =~= json_escape_char(s@[i0]));
            }
        }
        proof {
            assert(json_escaped_from(s@, i0) == json_escape_char(s@[i0]) + json_escaped_from(
                s@,
                i0 + 1,
            ));
            assert(out@ + json_escaped_from(s@, i0 + 1) =~= old(out)@ + json_escaped(s@));
        }
        i += 1;
    }
    proof {
        assert(json_escaped_from(s@, n as int) =~= Seq::<char>::empty());
        assert(out@ + json_escaped_from(s@, n as int) =~= out@);
    }
}

/// Encodes `s` as a JSON string literal.
pub fn json_string(s: &str) -> (r: String)
    ensures
        r@ == json_string_spec(s@),
{
    let mut out = String::new();
    out.append("\"");
    append_json_escaped(&mut out, s);
    out.append("\"");
    proof {
        reveal_strlit("\"");
        assert("\""@ =~= seq!['"']);
        assert(out@ =~= json_string_spec(s@));
    }
    out
}

// ---------------------------------------------------------------------------
// Arrays.
// ---------------------------------------------------------------------------

pub open spec fn json_string_items(tags: Seq<String>) -> Seq<char>
    decreases tags.len(),
{
    if tags.len() == 0 {
        Seq::<char>::empty()
    } else if tags.len() == 1 {
        json_string_spec(tags[0]@)
    } else {
        json_string_items(tags.drop_last()) + seq![','] + json_string_spec(tags.last()@)
    }
}

/// A list of strings as a compact JSON array of string literals.
pub open spec fn json_string_list_spec(tags: Seq<String>) -> Seq<char> {
    seq!['['] + json_string_items(tags) + seq![']']
}

/// Encodes a list of strings as a JSON array.
pub fn json_string_list(tags: &Vec<String>) -> (r: String)
    ensures
        r@ == json_string_list_spec(tags@),
{
    let mut out = String::new();
    out.append("[");
    proof {
        reveal_strlit("[");
        assert("["@ =~= seq!['[']);
        assert(json_string_items(tags@.take(0)) =~= Seq::<char>::empty());
        assert(out@ =~= seq!['['] + json_string_items(tags@.take(0)));
    }
    let n = tags.len();
    let mut i: usize = 0;
    while i < n
        invariant
            i <= n,
            n == tags@.len(),
            out@ == seq!['['] + json_string_items(tags@.take(i as int)),
        decreases n - i,
    {
        let ghost i0 = i as int;
        if i > 0 {
            out.append(",");
            proof {
                reveal_strlit(",");
                assert(","@ =~= seq![',']);
            }
        }
        let item = json_string(tags[i].as_str());
        out.append(item.as_str());
        proof {
            assert(tags@.take(i0 + 1).drop_last() =~= tags@.take(i0));
            assert(tags@.take(i0 + 1).last() == tags@[i0]);
            if i0 == 0 {
                assert(json_string_items(tags@.take(1)) == json_string_spec(tags@[0]@));
                assert(out@ =~= seq!['['] + json_string_items(tags@.take(1)));
            } else {
                assert(json_string_items(tags@.take(i0 + 1)) == json_string_items(tags@.take(i0))
                    + seq![','] + json_string_spec(tags@[i0]@));
                assert(out@ =~= seq!['['] + json_string_items(tags@.take(i0 + 1)));
            }
        }
        i += 1;
    }
    out.append("]");
    proof {
        reveal_strlit("]");
        assert("]"@ =~= seq![']']);
        assert(tags@.take(n as int) =~= tags@);
        assert(out@ =~= json_string_list_spec(tags@));
    }
    out
}

/// One author as a compact JSON object: the name, and the URL or null.
pub open spec fn json_author_spec(a: Author) -> Seq<char> {
    "{\"name\":"@ + json_string_spec(a.name@) + ",\"url\":"@ + (match a.url {
        Some(u) => json_string_spec(u@),
        None => "null"@,
    }) + "}"@
}

pub open spec fn json_author_items(authors: Seq<Author>) -> Seq<char>
    decreases authors.len(),
{
    if authors.len() == 0 {
        Seq::<char>::empty()
    } else if authors.len() == 1 {
        json_author_spec(authors[0])
    } else {
        json_author_items(authors.drop_last()) + seq![','] + json_author_spec(authors.last())
    }
}

/// An author list as a compact JSON array of objects.
pub open spec fn json_author_list_spec(authors: Seq<Author>) -> Seq<char> {
    seq!['['] + json_author_items(authors) + seq![']']
}

/// Encodes an author list as a JSON array of `{name, url}` objects.
pub fn json_author_list(authors: &Vec<Author>) -> (r: String)
    ensures
        r@ == json_author_list_spec(authors@),
{
    let mut out = String::new();
    out.append("[");
    proof {
        reveal_strlit("[");
        assert("["@ =~= seq!['[']);
        assert(json_author_items(authors@.take(0)) =~= Seq::<char>::empty());
        assert(out@ =~= seq!['['] + json_author_items(authors@.take(0)));
    }
    let n = authors.len();
    let mut i: usize = 0;
    while i < n
        invariant
            i <= n,
            n == authors@.len(),
            out@ == seq!['['] + json_author_items(authors@.take(i as int)),
        decreases n - i,
    {
        let ghost i0 = i as int;
        if i > 0 {
            out.append(",");
            proof {
                reveal_strlit(",");
                assert(","@ =~= seq![',']);
            }
        }
        out.append("{\"name\":");
        let name = json_string(authors[i].name.as_str());
        out.append(name.as_str());
        out.append(",\"url\":");
        match &authors[i].url {
            Some(u) => {
                let url = json_string(u.as_str());
                out.append(url.as_str());
            },
            None => {
                out.append("null");
            },
        }
        out.append("}");
        proof {
            assert(authors@.take(i0 + 1).drop_last() =~= authors@.take(i0));
            assert(authors@.take(i0 + 1).last() == authors@[i0]);
            if i0 == 0 {
                assert(json_author_items(authors@.take(1)) == json_author_spec(authors@[0]));
            } else {
                assert(json_author_items(authors@.take(i0 + 1)) == json_author_items(
                    authors@.take(i0),
                ) + seq![','] + json_author_spec(authors@[i0]));
            }
            assert(out@ =~= seq!['['] + json_author_items(authors@.take(i0 + 1)));
        }
        i += 1;
    }
    out.append("]");
    proof {
        reveal_strlit("]");
        assert("]"@ =~= seq![']']);
        assert(authors@.take(n as int) =~= authors@);
        assert(out@ =~= json_author_list_spec(authors@));
    }
    out
}

} // verus!

//! The front-matter splitter and the metadata decoder.
//!
//! A document begins with a metadata block between `---` marker lines; the
//! splitter separates it from the Markdown body. The decoder reads the block
//! as a YAML mapping and assembles the front-matter record, rejecting a
//! document whose required fields (title, date, tags) are missing or of the
//! wrong shape; the author list and the slug are optional.

use vstd::prelude::*;
use crate::text::{occurs_at, find_from, lemma_find_from_bounds, matches_at, find_sub};
use crate::date::{valid_date_string, parse_date};

verus! {

/// An author entry of the metadata: a name and an optional URL.
#[derive(Debug, Clone)]
pub struct Author {
    pub name: String,
    pub url: Option<String>,
}

/// The decoded front-matter record of one document.
#[derive(Debug, Clone)]
pub struct FrontMatter {
    pub slug: String,
    pub title: String,
    pub authors: Vec<Author>,
    pub date: String,
    pub tags: Vec<String>,
}

impl FrontMatter {
    /// The record's invariant: its date text names a valid calendar date.
    pub open spec fn wf(self) -> bool {
        valid_date_string(self.date@)
    }
}

/// Why the splitter rejected a document.
#[derive(Debug, Clone, Copy, PartialEq, Eq, Structural)]
pub enum SplitError {
    /// The document does not begin with the opening `---` line.
    MissingOpeningDelimiter,
    /// No closing `---` line follows the opening one.
    MissingClosingDelimiter,
}

/// A field of the metadata block.
#[derive(Debug, Clone, Copy, PartialEq, Eq, Structural)]
pub enum MetaField {
    Title,
    Date,
    Tags,
    Authors,
    Slug,
}

/// Why the decoder rejected a metadata block.
#[derive(Debug, Clone, Copy, PartialEq, Eq, Structural)]
pub enum MetaError {
    /// The block is not parseable as a YAML mapping.
    Yaml,
    /// A required field is missing.
    Missing(MetaField),
    /// A field does not have the required shape.
    WrongShape(MetaField),
    /// The date text does not name a valid calendar date.
    InvalidDate,
}

// ---------------------------------------------------------------------------
// The splitter.
// ---------------------------------------------------------------------------

/// The opening marker line at the very start of a document.
pub open spec fn fm_open() -> Seq<char> {
    seq!['-', '-', '-', '\n']
}

/// The marker line that closes the metadata block.
pub open spec fn fm_sep() -> Seq<char> {
    seq!['\n', '-', '-', '-', '\n']
}

pub open spec fn has_opening(s: Seq<char>) -> bool {
    occurs_at(s, 0, fm_open())
}

/// Position of the first closing marker, or -1.
pub open spec fn sep_pos(s: Seq<char>) -> int {
    find_from(s, fm_sep(), 4)
}

/// The metadata block of a well-delimited document.
pub open spec fn block_of(s: Seq<char>) -> Seq<char> {
    s.subrange(4, sep_pos(s))
}

/// The Markdown body of a well-delimited document.
pub open spec fn body_of(s: Seq<char>) -> Seq<char> {
    s.subrange(sep_pos(s) + 5, s.len() as int)
}

/// Separates the metadata block from the document body. The document must
/// begin with the exact opening marker line; the block runs to the first
/// closing marker line, and the body is everything after it.
pub fn split_front_matter(content: &str) -> (r: Result<(String, String), SplitError>)
    ensures
        !has_opening(content@) ==> r == Err::<(String, String), SplitError>(
            SplitError::MissingOpeningDelimiter,
        ),
        has_opening(content@) && sep_pos(content@) == -1 ==> r == Err::<
            (String, String),
            SplitError,
        >(SplitError::MissingClosingDelimiter),
        has_opening(content@) && sep_pos(content@) >= 0 ==> r is Ok,
        r is Ok ==> has_opening(content@) && sep_pos(content@) >= 0 && r->Ok_0.0@ == block_of(
            content@,
        ) && r->Ok_0.1@ == body_of(content@),
{
    proof {
        reveal_strlit("---\n");
        assert("---\n"@ =~= fm_open());
        reveal_strlit("\n---\n");
        assert("\n---\n"@ =~= fm_sep());
    }
    if !matches_at(content, 0, "---\n") {
        return Err(SplitError::MissingOpeningDelimiter);
    }
    match find_sub(content, "\n---\n", 4) {
        None => Err(SplitError::MissingClosingDelimiter),
        Some(j) => {
            proof {
                lemma_find_from_bounds(content@, fm_sep(), 4);
            }
            let block = String::from_str(content.substring_char(4, j));
            let n = content.unicode_len();
            let body = String::from_str(content.substring_char(j + 5, n));
            Ok((block, body))
        },
    }
}

// ---------------------------------------------------------------------------
// Trusted view of the YAML parser.
// ---------------------------------------------------------------------------

#[verifier::external_type_specification]
#[verifier::external_body]
pub struct ExYamlValue(serde_yaml::Value);

/// The YAML value that text parses to, when it parses as one YAML document:
/// what serde_yaml::from_str returns, a function of the text alone.
pub uninterp spec fn yaml_parsed(s: Seq<char>) -> Option<serde_yaml::Value>;

/// The value a key of a YAML mapping holds: what serde_yaml::Value::get
/// returns, a function of the value and the key alone.
pub uninterp spec fn yaml_entry(v: serde_yaml::Value, key: Seq<char>) -> Option<serde_yaml::Value>;

/// The text of a YAML string scalar: what serde_yaml::Value::as_str returns.
pub uninterp spec fn yaml_text(v: serde_yaml::Value) -> Option<Seq<char>>;

/// The elements a YAML sequence holds: what serde_yaml::Value::as_sequence
/// returns.
pub uninterp spec fn yaml_elems(v: serde_yaml::Value) -> Option<Seq<serde_yaml::Value>>;

/// Whether a YAML value is null: what serde_yaml::Value::is_null returns.
pub uninterp spec fn yaml_null(v: serde_yaml::Value) -> bool;

/// Relies on serde_yaml::from_str: parses text as one YAML document, giving
/// its value tree, or nothing when the text is not well-formed YAML.
#[verifier::external_body]
fn yaml_parse(s: &str) -> (r: Option<serde_yaml::Value>)
    ensures
        r == yaml_parsed(s@),
{
    match serde_yaml::from_str::<serde_yaml::Value>(s) {
        Ok(v) => Some(v),
        Err(_) => None,
    }
}

/// Relies on serde_yaml::Value::get: the value a key maps to, when the value
/// is a mapping holding that key.
#[verifier::external_body]
fn yaml_get<'a>(v: &'a serde_yaml::Value, key: &str) -> (r: Option<&'a serde_yaml::Value>)
    ensures
        match r {
            Some(x) => yaml_entry(*v, key@) == Some(*x),
            None => yaml_entry(*v, key@) is None,
        },
{
    v.get(key)
}

/// Relies on serde_yaml::Value::as_str: the text of a string scalar.
#[verifier::external_body]
fn yaml_as_string(v: &serde_yaml::Value) -> (r: Option<String>)
    ensures
        match r {
            Some(s) => yaml_text(*v) == Some(s@),
            None => yaml_text(*v) is None,
        },
{
    match v.as_str() {
        Some(s) => Some(s.to_owned()),
        None => None,
    }
}

/// Relies on serde_yaml::Value::as_sequence: the elements of a sequence value.
#[verifier::external_body]
fn yaml_as_sequence<'a>(v: &'a serde_yaml::Value) -> (r: Option<&'a Vec<serde_yaml::Value>>)
    ensures
        match r {
            Some(items) => yaml_elems(*v) == Some(items@),
            None => yaml_elems(*v) is None,
        },
{
    v.as_sequence()
}

/// Relies on serde_yaml::Value::is_null: whether the value is YAML null.
#[verifier::external_body]
fn yaml_is_null(v: &serde_yaml::Value) -> (r: bool)
    ensures
        r == yaml_null(*v),
{
    v.is_null()
}

// ---------------------------------------------------------------------------
// Field extraction and record assembly.
// ---------------------------------------------------------------------------

/// What the metadata block gives for one field: nothing, a value of the wrong
/// shape, or a usable value.
pub enum FieldVal<T> {
    Absent,
    WrongShape,
    Given(T),
}

/// A string field's view.
pub open spec fn fv_str(f: FieldVal<String>) -> FieldVal<Seq<char>> {
    match f {
        FieldVal::Absent => FieldVal::Absent,
        FieldVal::WrongShape => FieldVal::WrongShape,
        FieldVal::Given(s) => FieldVal::Given(s@),
    }
}

/// A string list's view.
pub open spec fn tags_view(ts: Seq<String>) -> Seq<Seq<char>> {
    Seq::new(ts.len(), |i: int| ts[i]@)
}

/// The tag field's view.
pub open spec fn fv_tags(f: FieldVal<Vec<String>>) -> FieldVal<Seq<Seq<char>>> {
    match f {
        FieldVal::Absent => FieldVal::Absent,
        FieldVal::WrongShape => FieldVal::WrongShape,
        FieldVal::Given(ts) => FieldVal::Given(tags_view(ts@)),
    }
}

/// An author as its plain values: the name and the optional URL.
pub open spec fn author_view(a: Author) -> (Seq<char>, Option<Seq<char>>) {
    (
        a.name@,
        match a.url {
            Some(u) => Some(u@),
            None => None,
        },
    )
}

/// An author list's view.
pub open spec fn authors_view(s: Seq<Author>) -> Seq<(Seq<char>, Option<Seq<char>>)> {
    Seq::new(s.len(), |i: int| author_view(s[i]))
}

/// The author field's view.
pub open spec fn fv_authors(f: FieldVal<Vec<Author>>) -> FieldVal<
    Seq<(Seq<char>, Option<Seq<char>>)>,
> {
    match f {
        FieldVal::Absent => FieldVal::Absent,
        FieldVal::WrongShape => FieldVal::WrongShape,
        FieldVal::Given(a) => FieldVal::Given(authors_view(a@)),
    }
}

/// What the mapping gives for a field that must be a string scalar.
pub open spec fn string_field_spec(doc: serde_yaml::Value, key: Seq<char>) -> FieldVal<Seq<char>> {
    match yaml_entry(doc, key) {
        None => FieldVal::Absent,
        Some(v) => match yaml_text(v) {
            Some(t) => FieldVal::Given(t),
            None => FieldVal::WrongShape,
        },
    }
}

/// What the mapping gives for the tag list: a sequence of string scalars.
pub open spec fn tags_field_spec(doc: serde_yaml::Value) -> FieldVal<Seq<Seq<char>>> {
    match yaml_entry(doc, "tags"@) {
        None => FieldVal::Absent,
        Some(v) => match yaml_elems(v) {
            None => FieldVal::WrongShape,
            Some(es) => if forall|i: int| 0 <= i < es.len() ==> yaml_text(#[trigger] es[i]) is Some {
                FieldVal::Given(Seq::new(es.len(), |i: int| yaml_text(es[i])->Some_0))
            } else {
                FieldVal::WrongShape
            },
        },
    }
}

/// The name of one author entry, when it is given as a string.
pub open spec fn author_entry_name(e: serde_yaml::Value) -> Option<Seq<char>> {
    match yaml_entry(e, "name"@) {
        None => None,
        Some(v) => yaml_text(v),
    }
}

/// The URL of one author entry: nothing when the key is absent or null.
pub open spec fn author_entry_url(e: serde_yaml::Value) -> Option<Seq<char>> {
    match yaml_entry(e, "url"@) {
        None => None,
        Some(u) => if yaml_null(u) {
            None
        } else {
            yaml_text(u)
        },
    }
}

/// A well-shaped author entry: a string name, and a URL that is a string or
/// null where present.
pub open spec fn author_entry_wf(e: serde_yaml::Value) -> bool {
    &&& author_entry_name(e) is Some
    &&& match yaml_entry(e, "url"@) {
        None => true,
        Some(u) => yaml_null(u) || yaml_text(u) is Some,
    }
}

/// What the mapping gives for the author list.
pub open spec fn authors_field_spec(doc: serde_yaml::Value) -> FieldVal<
    Seq<(Seq<char>, Option<Seq<char>>)>,
> {
    match yaml_entry(doc, "authors"@) {
        None => FieldVal::Absent,
        Some(v) => match yaml_elems(v) {
            None => FieldVal::WrongShape,
            Some(es) => if forall|i: int| 0 <= i < es.len() ==> author_entry_wf(#[trigger] es[i]) {
                FieldVal::Given(
                    Seq::new(
                        es.len(),
                        |i: int| (author_entry_name(es[i])->Some_0, author_entry_url(es[i])),
                    ),
                )
            } else {
                FieldVal::WrongShape
            },
        },
    }
}

/// All field checks of the decoder pass on the parsed mapping.
pub open spec fn decode_fields_ok(doc: serde_yaml::Value) -> bool {
    &&& string_field_spec(doc, "title"@) is Given
    &&& string_field_spec(doc, "date"@) is Given
    &&& valid_date_string(string_field_spec(doc, "date"@)->Given_0)
    &&& tags_field_spec(doc) is Given
    &&& !(authors_field_spec(doc) is WrongShape)
    &&& !(string_field_spec(doc, "slug"@) is WrongShape)
}

/// The error the decoder reports when some field check fails, in field order.
pub open spec fn decode_err(doc: serde_yaml::Value) -> MetaError {
    if string_field_spec(doc, "title"@) is Absent {
        MetaError::Missing(MetaField::Title)
    } else if string_field_spec(doc, "title"@) is WrongShape {
        MetaError::WrongShape(MetaField::Title)
    } else if string_field_spec(doc, "date"@) is Absent {
        MetaError::Missing(MetaField::Date)
    } else if string_field_spec(doc, "date"@) is WrongShape {
        MetaError::WrongShape(MetaField::Date)
    } else if tags_field_spec(doc) is Absent {
        MetaError::Missing(MetaField::Tags)
    } else if tags_field_spec(doc) is WrongShape {
        MetaError::WrongShape(MetaField::Tags)
    } else if authors_field_spec(doc) is WrongShape {
        MetaError::WrongShape(MetaField::Authors)
    } else if string_field_spec(doc, "slug"@) is WrongShape {
        MetaError::WrongShape(MetaField::Slug)
    } else {
        MetaError::InvalidDate
    }
}

/// The record's title, date, tags and authors are the parsed mapping's
/// values (the slug is the caller's, so it is not constrained here).
pub open spec fn record_matches_doc(doc: serde_yaml::Value, fm: FrontMatter) -> bool {
    &&& fm.title@ == string_field_spec(doc, "title"@)->Given_0
    &&& fm.date@ == string_field_spec(doc, "date"@)->Given_0
    &&& tags_view(fm.tags@) == tags_field_spec(doc)->Given_0
    &&& authors_view(fm.authors@) == (match authors_field_spec(doc) {
        FieldVal::Given(a) => a,
        _ => Seq::<(Seq<char>, Option<Seq<char>>)>::empty(),
    })
    &&& fm.wf()
}

/// The slug the block itself gives: the `slug` field, or empty when absent.
pub open spec fn doc_slug(doc: serde_yaml::Value) -> Seq<char> {
    match string_field_spec(doc, "slug"@) {
        FieldVal::Given(s) => s,
        _ => Seq::<char>::empty(),
    }
}

/// What decoding block text `s` must give: the YAML error when the text does
/// not parse; the first failing field's error when a check fails; otherwise a
/// record holding the block's values.
pub open spec fn decode_result_spec(s: Seq<char>, r: Result<FrontMatter, MetaError>) -> bool {
    match yaml_parsed(s) {
        None => r == Err::<FrontMatter, MetaError>(MetaError::Yaml),
        Some(doc) => if decode_fields_ok(doc) {
            &&& r is Ok
            &&& record_matches_doc(doc, r->Ok_0)
            &&& r->Ok_0.slug@ == doc_slug(doc)
        } else {
            r == Err::<FrontMatter, MetaError>(decode_err(doc))
        },
    }
}

/// Reads a field that must be a string scalar.
fn read_string_field(doc: &serde_yaml::Value, key: &str) -> (r: FieldVal<String>)
    ensures
        fv_str(r) == string_field_spec(*doc, key@),
{
    match yaml_get(doc, key) {
        None => FieldVal::Absent,
        Some(v) => match yaml_as_string(v) {
            Some(s) => FieldVal::Given(s),
            None => FieldVal::WrongShape,
        },
    }
}

/// Reads the tag list: a sequence of string scalars.
fn read_tags_field(doc: &serde_yaml::Value) -> (r: FieldVal<Vec<String>>)
    ensures
        fv_tags(r) == tags_field_spec(*doc),
{
    let entry = match yaml_get(doc, "tags") {
        None => {
            return FieldVal::Absent;
        },
        Some(v) => v,
    };
    let items = match yaml_as_sequence(entry) {
        None => {
            return FieldVal::WrongShape;
        },
        Some(it) => it,
    };
    let ghost es = items@;
    let mut tags: Vec<String> = Vec::new();
    let n = items.len();
    let mut i: usize = 0;
    while i < n
        invariant
            i <= n,
            n == es.len(),
            items@ == es,
            yaml_entry(*doc, "tags"@) == Some(*entry),
            yaml_elems(*entry) == Some(es),
            tags@.len() == i,
            forall|k: int| 0 <= k < i ==> yaml_text(#[trigger] es[k]) is Some,
            forall|k: int| 0 <= k < i ==> tags@[k]@ == yaml_text(#[trigger] es[k])->Some_0,
        decreases n - i,
    {
        let ghost i0 = i as int;
        match yaml_as_string(&items[i]) {
            Some(s) => tags.push(s),
            None => {
                proof {
                    assert(yaml_text(es[i0]) is None);
                    assert(!(forall|k: int|
                        0 <= k < es.len() ==> yaml_text(#[trigger] es[k]) is Some)) by {
                        assert(!(yaml_text(es[i0]) is Some));
                    }
                }
                return FieldVal::WrongShape;
            },
        }
        i += 1;
    }
    proof {
        assert(tags_field_spec(*doc) == FieldVal::Given(
            Seq::new(es.len(), |k: int| yaml_text(es[k])->Some_0),
        ));
        assert(tags_view(tags@) =~= Seq::new(es.len(), |k: int| yaml_text(es[k])->Some_0));
    }
    FieldVal::Given(tags)
}

/// Reads the author list: a sequence of mappings, each with a `name` string
/// and an optional `url` that is a string or null when present.
fn read_authors_field(doc: &serde_yaml::Value) -> (r: FieldVal<Vec<Author>>)
    ensures
        fv_authors(r) == authors_field_spec(*doc),
{
    let list = match yaml_get(doc, "authors") {
        None => {
            return FieldVal::Absent;
        },
        Some(v) => v,
    };
    let items = match yaml_as_sequence(list) {
        None => {
            return FieldVal::WrongShape;
        },
        Some(it) => it,
    };
    let ghost es = items@;
    let mut authors: Vec<Author> = Vec::new();
    let n = items.len();
    let mut i: usize = 0;
    while i < n
        invariant
            i <= n,
            n == es.len(),
            items@ == es,
            yaml_entry(*doc, "authors"@) == Some(*list),
            yaml_elems(*list) == Some(es),
            authors@.len() == i,
            forall|k: int| 0 <= k < i ==> author_entry_wf(#[trigger] es[k]),
            forall|k: int| 0 <= k < i ==> author_view(authors@[k]) == (
                author_entry_name(#[trigger] es[k])->Some_0,
                author_entry_url(es[k]),
            ),
        decreases n - i,
    {
        let ghost i0 = i as int;
        let entry = &items[i];
        let name = match yaml_get(entry, "name") {
            None => {
                proof {
                    lemma_author_entry_refuted(es, i0);
                }
                return FieldVal::WrongShape;
            },
            Some(v) => match yaml_as_string(v) {
                None => {
                    proof {
                        lemma_author_entry_refuted(es, i0);
                    }
                    return FieldVal::WrongShape;
                },
                Some(s) => s,
            },
        };
        let url = match yaml_get(entry, "url") {
            None => None,
            Some(u) => {
                if yaml_is_null(u) {
                    None
                } else {
                    match yaml_as_string(u) {
                        None => {
                            proof {
                                lemma_author_entry_refuted(es, i0);
                            }
                            return FieldVal::WrongShape;
                        },
                        Some(s) => Some(s),
                    }
                }
            },
        };
        authors.push(Author { name, url });
        proof {
            assert(author_view(authors@[i0]) == (
                author_entry_name(es[i0])->Some_0,
                author_entry_url(es[i0]),
            ));
        }
        i += 1;
    }
    proof {
        assert(authors_field_spec(*doc) == FieldVal::Given(
            Seq::new(
                es.len(),
                |k: int| (author_entry_name(es[k])->Some_0, author_entry_url(es[k])),
            ),
        ));
        assert(authors_view(authors@) =~= Seq::new(
            es.len(),
            |k: int| (author_entry_name(es[k])->Some_0, author_entry_url(es[k])),
        ));
    }
    FieldVal::Given(authors)
}

/// The item sequence holds an entry that is not well shaped, so the author
/// field as a whole is not.
proof fn lemma_author_entry_refuted(es: Seq<serde_yaml::Value>, i: int)
    requires
        0 <= i < es.len(),
        !author_entry_wf(es[i]),
    ensures
        !(forall|k: int| 0 <= k < es.len() ==> author_entry_wf(#[trigger] es[k])),
{
    assert(!author_entry_wf(es[i]));
}

/// Assembles the front-matter record from what the block gave for each field.
/// The required fields must be given; the author list defaults to empty and
/// the slug to the empty string; the date text must name a valid calendar
/// date. Rejections are checked in that field order.
pub fn build_front_matter(
    title: FieldVal<String>,
    date: FieldVal<String>,
    tags: FieldVal<Vec<String>>,
    authors: FieldVal<Vec<Author>>,
    slug: FieldVal<String>,
) -> (r: Result<FrontMatter, MetaError>)
    ensures
        ({
            if title is Absent {
                r == Err::<FrontMatter, MetaError>(MetaError::Missing(MetaField::Title))
            } else if title is WrongShape {
                r == Err::<FrontMatter, MetaError>(MetaError::WrongShape(MetaField::Title))
            } else if date is Absent {
                r == Err::<FrontMatter, MetaError>(MetaError::Missing(MetaField::Date))
            } else if date is WrongShape {
                r == Err::<FrontMatter, MetaError>(MetaError::WrongShape(MetaField::Date))
            } else if tags is Absent {
                r == Err::<FrontMatter, MetaError>(MetaError::Missing(MetaField::Tags))
            } else if tags is WrongShape {
                r == Err::<FrontMatter, MetaError>(MetaError::WrongShape(MetaField::Tags))
            } else if authors is WrongShape {
                r == Err::<FrontMatter, MetaError>(MetaError::WrongShape(MetaField::Authors))
            } else if slug is WrongShape {
                r == Err::<FrontMatter, MetaError>(MetaError::WrongShape(MetaField::Slug))
            } else if !valid_date_string(date->Given_0@) {
                r == Err::<FrontMatter, MetaError>(MetaError::InvalidDate)
            } else {
                r is Ok && {
                    let fm = r->Ok_0;
                    &&& fm.title == title->Given_0
                    &&& fm.date == date->Given_0
                    &&& fm.tags == tags->Given_0
                    &&& fm.authors == if authors is Given {
                        authors->Given_0
                    } else {
                        fm.authors
                    }
                    &&& (authors is Absent ==> fm.authors@ == Seq::<Author>::empty())
                    &&& fm.slug == if slug is Given {
                        slug->Given_0
                    } else {
                        fm.slug
                    }
                    &&& (slug is Absent ==> fm.slug@ == Seq::<char>::empty())
                    &&& fm.wf()
                }
            }
        }),
{
    let title = match title {
        FieldVal::Absent => {
            return Err(MetaError::Missing(MetaField::Title));
        },
        FieldVal::WrongShape => {
            return Err(MetaError::WrongShape(MetaField::Title));
        },
        FieldVal::Given(t) => t,
    };
    let date = match date {
        FieldVal::Absent => {
            return Err(MetaError::Missing(MetaField::Date));
        },
        FieldVal::WrongShape => {
            return Err(MetaError::WrongShape(MetaField::Date));
        },
        FieldVal::Given(d) => d,
    };
    let tags = match tags {
        FieldVal::Absent => {
            return Err(MetaError::Missing(MetaField::Tags));
        },
        FieldVal::WrongShape => {
            return Err(MetaError::WrongShape(MetaField::Tags));
        },
        FieldVal::Given(t) => t,
    };
    let authors = match authors {
        FieldVal::WrongShape => {
            return Err(MetaError::WrongShape(MetaField::Authors));
        },
        FieldVal::Absent => Vec::new(),
        FieldVal::Given(a) => a,
    };
    let slug = match slug {
        FieldVal::WrongShape => {
            return Err(MetaError::WrongShape(MetaField::Slug));
        },
        FieldVal::Absent => String::new(),
        FieldVal::Given(s) => s,
    };
    if parse_date(date.as_str()).is_none() {
        return Err(MetaError::InvalidDate);
    }
    Ok(FrontMatter { slug, title, authors, date, tags })
}

/// Decodes a metadata block: parses it as YAML and assembles the record.
/// Succeeds exactly when the block parses and every field check passes, with
/// the record's fields equal to the block's values; a record only comes back
/// well-formed, with its date already validated.
pub fn decode_front_matter(block: &str) -> (r: Result<FrontMatter, MetaError>)
    ensures
        decode_result_spec(block@, r),
        r is Ok ==> r->Ok_0.wf(),
{
    let doc = match yaml_parse(block) {
        None => {
            return Err(MetaError::Yaml);
        },
        Some(d) => d,
    };
    let title = read_string_field(&doc, "title");
    let date = read_string_field(&doc, "date");
    let tags = read_tags_field(&doc);
    let authors = read_authors_field(&doc);
    let slug = read_string_field(&doc, "slug");
    let r = build_front_matter(title, date, tags, authors, slug);
    proof {
        assert(yaml_parsed(block@) == Some(doc));
        if decode_fields_ok(doc) {
            let fm = r->Ok_0;
            assert(r is Ok);
            assert(fm.title@ == string_field_spec(doc, "title"@)->Given_0);
            assert(fm.date@ == string_field_spec(doc, "date"@)->Given_0);
            assert(tags_view(fm.tags@) == tags_field_spec(doc)->Given_0);
            if authors is Absent {
                assert(authors_view(fm.authors@) =~= Seq::<
                    (Seq<char>, Option<Seq<char>>),
                >::empty());
            }
            match string_field_spec(doc, "slug"@) {
                FieldVal::Given(s) => {
                    assert(fm.slug@ == doc_slug(doc));
                },
                _ => {
                    assert(fm.slug@ =~= doc_slug(doc));
                },
            }
            assert(record_matches_doc(doc, fm));
        } else {
            assert(r == Err::<FrontMatter, MetaError>(decode_err(doc)));
        }
    }
    r
}

/// Splits a document and decodes its metadata block: the front-matter record
/// and the Markdown body. On a well-delimited document, the body is returned
/// verbatim, and the metadata outcome is exactly the block's decoding.
pub fn extract_frontmatter(content: &str) -> (r: Result<(FrontMatter, String), DocError>)
    ensures
        !has_opening(content@) ==> r == Err::<(FrontMatter, String), DocError>(
            DocError::Split(SplitError::MissingOpeningDelimiter),
        ),
        has_opening(content@) && sep_pos(content@) == -1 ==> r == Err::<
            (FrontMatter, String),
            DocError,
        >(DocError::Split(SplitError::MissingClosingDelimiter)),
        r is Ok ==> has_opening(content@) && sep_pos(content@) >= 0 && r->Ok_0.0.wf()
            && r->Ok_0.1@ == body_of(content@),
        has_opening(content@) && sep_pos(content@) >= 0 ==> match r {
            Ok(p) => decode_result_spec(block_of(content@), Ok(p.0)),
            Err(e) => e is Meta && decode_result_spec(
                block_of(content@),
                Err::<FrontMatter, MetaError>(e->Meta_0),
            ),
        },
{
    let (block, body) = match split_front_matter(content) {
        Err(e) => {
            return Err(DocError::Split(e));
        },
        Ok(p) => p,
    };
    match decode_front_matter(block.as_str()) {
        Err(e) => Err(DocError::Meta(e)),
        Ok(fm) => Ok((fm, body)),
    }
}

/// Why a document was rejected: at the splitter, or at the metadata decoder.
#[derive(Debug, Clone, Copy, PartialEq, Eq, Structural)]
pub enum DocError {
    Split(SplitError),
    Meta(MetaError),
}

} // verus!

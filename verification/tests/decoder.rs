use site_pipeline::front_matter::{
    build_front_matter, decode_front_matter, Author, FieldVal, MetaError, MetaField,
};

#[test]
fn decoder_rejects_document_lacking_title() {
    let block = "date: 2024-03-05\ntags: [a, b]";
    assert_eq!(
        decode_front_matter(block).unwrap_err(),
        MetaError::Missing(MetaField::Title)
    );
}

#[test]
fn decoder_rejects_document_lacking_date() {
    let block = "title: Hello\ntags: [a, b]";
    assert_eq!(
        decode_front_matter(block).unwrap_err(),
        MetaError::Missing(MetaField::Date)
    );
}

#[test]
fn decoder_rejects_document_lacking_tags() {
    let block = "title: Hello\ndate: 2024-03-05";
    assert_eq!(
        decode_front_matter(block).unwrap_err(),
        MetaError::Missing(MetaField::Tags)
    );
}

#[test]
fn decoder_rejects_title_of_wrong_shape() {
    let block = "title: [not, text]\ndate: 2024-03-05\ntags: [a]";
    assert_eq!(
        decode_front_matter(block).unwrap_err(),
        MetaError::WrongShape(MetaField::Title)
    );
}

#[test]
fn decoder_rejects_tags_of_wrong_shape() {
    let block = "title: Hello\ndate: 2024-03-05\ntags: not-a-list";
    assert_eq!(
        decode_front_matter(block).unwrap_err(),
        MetaError::WrongShape(MetaField::Tags)
    );
}

#[test]
fn decoder_rejects_tag_element_of_wrong_shape() {
    let block = "title: Hello\ndate: 2024-03-05\ntags: [a, [b]]";
    assert_eq!(
        decode_front_matter(block).unwrap_err(),
        MetaError::WrongShape(MetaField::Tags)
    );
}

#[test]
fn decoder_rejects_unparseable_date() {
    let block = "title: Hello\ndate: 2024-13-05\ntags: [a]";
    assert_eq!(decode_front_matter(block).unwrap_err(), MetaError::InvalidDate);
}

#[test]
fn decoder_rejects_malformed_yaml() {
    let block = "title: [unclosed\ndate: 2024-03-05";
    assert_eq!(decode_front_matter(block).unwrap_err(), MetaError::Yaml);
}

#[test]
fn decoder_rejects_author_without_name() {
    let block = "title: Hello\ndate: 2024-03-05\ntags: [a]\nauthors:\n  - url: http://x";
    assert_eq!(
        decode_front_matter(block).unwrap_err(),
        MetaError::WrongShape(MetaField::Authors)
    );
}

#[test]
fn decoder_accepts_full_record() {
    let block = "title: Hello\ndate: 2024-03-05\ntags: [a, b]\nauthors:\n  - name: Ada\n    url: http://x\n  - name: Bob\nslug: ignored";
    let fm = decode_front_matter(block).unwrap();
    assert_eq!(fm.title, "Hello");
    assert_eq!(fm.date, "2024-03-05");
    assert_eq!(fm.tags, vec!["a".to_string(), "b".to_string()]);
    assert_eq!(fm.authors.len(), 2);
    assert_eq!(fm.authors[0].name, "Ada");
    assert_eq!(fm.authors[0].url.as_deref(), Some("http://x"));
    assert_eq!(fm.authors[1].name, "Bob");
    assert_eq!(fm.authors[1].url, None);
    assert_eq!(fm.slug, "ignored");
}

#[test]
fn decoder_defaults_authors_and_slug() {
    let block = "title: Hello\ndate: 2024-03-05\ntags: []";
    let fm = decode_front_matter(block).unwrap();
    assert!(fm.authors.is_empty());
    assert_eq!(fm.slug, "");
    assert!(fm.tags.is_empty());
}

#[test]
fn decoder_accepts_null_author_url() {
    let block = "title: Hello\ndate: 2024-03-05\ntags: [a]\nauthors:\n  - name: Ada\n    url: null";
    let fm = decode_front_matter(block).unwrap();
    assert_eq!(fm.authors[0].url, None);
}

#[test]
fn assembly_checks_fields_in_order() {
    let r = build_front_matter(
        FieldVal::Absent,
        FieldVal::Absent,
        FieldVal::WrongShape,
        FieldVal::Absent,
        FieldVal::Absent,
    );
    assert_eq!(r.unwrap_err(), MetaError::Missing(MetaField::Title));
}

#[test]
fn assembly_builds_record_with_defaults() {
    let authors: Vec<Author> = Vec::new();
    let _ = authors;
    let r = build_front_matter(
        FieldVal::Given("T".to_string()),
        FieldVal::Given("2023-01-31".to_string()),
        FieldVal::Given(vec!["x".to_string()]),
        FieldVal::Absent,
        FieldVal::Absent,
    )
    .unwrap();
    assert_eq!(r.title, "T");
    assert_eq!(r.date, "2023-01-31");
    assert_eq!(r.slug, "");
    assert!(r.authors.is_empty());
}

#[test]
fn assembly_rejects_invalid_calendar_date() {
    let r = build_front_matter(
        FieldVal::Given("T".to_string()),
        FieldVal::Given("2023-02-29".to_string()),
        FieldVal::Given(vec![]),
        FieldVal::Absent,
        FieldVal::Absent,
    );
    assert_eq!(r.unwrap_err(), MetaError::InvalidDate);
}

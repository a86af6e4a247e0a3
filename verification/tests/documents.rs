use site_pipeline::front_matter::{DocError, MetaError, MetaField, SplitError};
use site_pipeline::manifest::generate_data;
use site_pipeline::pipeline::process_document;

const DOC: &str = "---\ntitle: First post\ndate: 2024-03-05\ntags: [notes]\n---\nhello world";

#[test]
fn document_is_processed_end_to_end() {
    let (fm, page) = process_document(DOC, "first-post", true, "IMG").unwrap();
    assert_eq!(fm.slug, "first-post");
    assert_eq!(fm.title, "First post");
    assert!(page.contains("export const title = 'First post';"));
    assert!(page.contains("export const date = 'March 05, 2024';"));
    assert!(page.contains("let content = \"<p>hello world</p>\\n\";"));
}

#[test]
fn slug_comes_from_the_file_name_not_the_block() {
    let doc = "---\ntitle: T\ndate: 2024-01-02\ntags: []\nslug: from-block\n---\nbody";
    let (fm, _) = process_document(doc, "from-file", false, "").unwrap();
    assert_eq!(fm.slug, "from-file");
}

#[test]
fn processing_fails_on_missing_delimiters() {
    assert_eq!(
        process_document("no front matter", "s", true, "").unwrap_err(),
        DocError::Split(SplitError::MissingOpeningDelimiter)
    );
    assert_eq!(
        process_document("---\ntitle: T", "s", true, "").unwrap_err(),
        DocError::Split(SplitError::MissingClosingDelimiter)
    );
}

#[test]
fn processing_fails_on_metadata_errors() {
    let doc = "---\ndate: 2024-01-02\ntags: []\n---\nbody";
    assert_eq!(
        process_document(doc, "s", true, "").unwrap_err(),
        DocError::Meta(MetaError::Missing(MetaField::Title))
    );
}

#[test]
fn two_documents_give_a_two_entry_manifest() {
    let doc_a = "---\ntitle: A\ndate: 2024-01-01\ntags: []\n---\nbody a";
    let doc_b = "---\ntitle: B\ndate: 2024-01-02\ntags: []\n---\nbody b";
    let (fm_a, _) = process_document(doc_a, "a", true, "").unwrap();
    let (fm_b, _) = process_document(doc_b, "b", true, "").unwrap();
    let manifest = generate_data(&vec![fm_a, fm_b], true);
    assert_eq!(manifest.matches("slug:").count(), 2);
    assert!(manifest.contains("slug: 'a'"));
    assert!(manifest.contains("slug: 'b'"));
}

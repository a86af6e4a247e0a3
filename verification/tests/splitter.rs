use site_pipeline::front_matter::{split_front_matter, SplitError};

#[test]
fn split_rejects_document_without_opening_delimiter() {
    let doc = "title: Hello\ndate: 2024-03-05\n---\nBody";
    assert_eq!(
        split_front_matter(doc).unwrap_err(),
        SplitError::MissingOpeningDelimiter
    );
}

#[test]
fn split_rejects_empty_document() {
    assert_eq!(
        split_front_matter("").unwrap_err(),
        SplitError::MissingOpeningDelimiter
    );
}

#[test]
fn split_rejects_indented_opening_delimiter() {
    let doc = " ---\ntitle: Hello\n---\nBody";
    assert_eq!(
        split_front_matter(doc).unwrap_err(),
        SplitError::MissingOpeningDelimiter
    );
}

#[test]
fn split_rejects_unclosed_block() {
    let doc = "---\ntitle: Hello\nBody without closing";
    assert_eq!(
        split_front_matter(doc).unwrap_err(),
        SplitError::MissingClosingDelimiter
    );
}

#[test]
fn split_rejects_closing_marker_fused_with_opening() {
    // The closing marker line must start after the opening line's newline.
    let doc = "---\n---\nBody";
    assert_eq!(
        split_front_matter(doc).unwrap_err(),
        SplitError::MissingClosingDelimiter
    );
}

#[test]
fn split_returns_block_and_body() {
    let doc = "---\ntitle: Hello\ndate: 2024-03-05\n---\n# Heading\n\nText";
    let (block, body) = split_front_matter(doc).unwrap();
    assert_eq!(block, "title: Hello\ndate: 2024-03-05");
    assert_eq!(body, "# Heading\n\nText");
}

#[test]
fn split_allows_empty_block_and_body() {
    let (block, body) = split_front_matter("---\n\n---\n").unwrap();
    assert_eq!(block, "");
    assert_eq!(body, "");
}

#[test]
fn split_uses_first_closing_marker() {
    let doc = "---\na: 1\n---\nbody\n---\nmore";
    let (block, body) = split_front_matter(doc).unwrap();
    assert_eq!(block, "a: 1");
    assert_eq!(body, "body\n---\nmore");
}

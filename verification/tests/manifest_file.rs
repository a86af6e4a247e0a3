use site_pipeline::front_matter::{Author, FrontMatter};
use site_pipeline::manifest::generate_data;

fn record(slug: &str, title: &str) -> FrontMatter {
    FrontMatter {
        slug: slug.to_string(),
        title: title.to_string(),
        authors: Vec::new(),
        date: "2024-03-05".to_string(),
        tags: vec!["t".to_string()],
    }
}

#[test]
fn manifest_holds_one_entry_per_file_with_its_slug() {
    let records = vec![record("a", "A"), record("b", "B")];
    let text = generate_data(&records, true);
    assert_eq!(text.matches("slug:").count(), 2);
    assert!(text.contains("    slug: 'a',\n"));
    assert!(text.contains("    slug: 'b',\n"));
    assert!(text.starts_with("export const articles = [\n"));
    assert!(text.ends_with("];\n"));
}

#[test]
fn manifest_entry_text_is_exact() {
    let mut fm = record("post", "It's here");
    fm.authors = vec![
        Author { name: "Ada".to_string(), url: Some("http://a".to_string()) },
        Author { name: "Bo'b".to_string(), url: None },
    ];
    let text = generate_data(&vec![fm], false);
    let expected = "export const projects = [\n  {\n    slug: 'post',\n    title: 'It\\'s here',\n    authors: [\n      { name: 'Ada', url: 'http://a' },\n      { name: 'Bo\\'b', url: null },\n    ],\n    date: '2024-03-05',\n    tags: [\"t\"]\n  },\n];\n";
    assert_eq!(text, expected);
}

#[test]
fn manifest_of_no_records_is_just_the_list() {
    let text = generate_data(&Vec::new(), true);
    assert_eq!(text, "export const articles = [\n];\n");
}

#[test]
fn manifest_tags_use_double_quoted_escaping() {
    let mut fm = record("s", "T");
    fm.tags = vec!["with \"quote\"".to_string(), "back\\slash".to_string()];
    let text = generate_data(&vec![fm], true);
    assert!(text.contains("    tags: [\"with \\\"quote\\\"\", \"back\\\\slash\"]\n"));
}

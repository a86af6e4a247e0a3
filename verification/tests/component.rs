use site_pipeline::front_matter::{Author, FrontMatter};
use site_pipeline::json::{json_author_list, json_string, json_string_list};
use site_pipeline::template::generate_svelte_component;

fn record() -> FrontMatter {
    FrontMatter {
        slug: "post".to_string(),
        title: "Hello".to_string(),
        authors: vec![Author { name: "Ada".to_string(), url: None }],
        date: "2024-03-05".to_string(),
        tags: vec!["a".to_string(), "b".to_string()],
    }
}

#[test]
fn json_string_escapes_specials() {
    assert_eq!(json_string("plain"), "\"plain\"");
    assert_eq!(json_string("say \"hi\"\n"), "\"say \\\"hi\\\"\\n\"");
    assert_eq!(json_string("back\\slash\ttab"), "\"back\\\\slash\\ttab\"");
    assert_eq!(json_string("ctl\u{1}"), "\"ctl\\u0001\"");
}

#[test]
fn json_lists_are_compact() {
    assert_eq!(json_string_list(&vec![]), "[]");
    assert_eq!(
        json_string_list(&vec!["a".to_string(), "b".to_string()]),
        "[\"a\",\"b\"]"
    );
    let authors = vec![
        Author { name: "Ada".to_string(), url: Some("http://a".to_string()) },
        Author { name: "Bob".to_string(), url: None },
    ];
    assert_eq!(
        json_author_list(&authors),
        "[{\"name\":\"Ada\",\"url\":\"http://a\"},{\"name\":\"Bob\",\"url\":null}]"
    );
}

#[test]
fn component_embeds_metadata_bindings() {
    let page = generate_svelte_component(&record(), "<p>body</p>\n", true, "IMGDATA");
    assert!(page.contains("export const title = 'Hello';"));
    assert!(page.contains("export const date = 'March 05, 2024';"));
    assert!(page.contains("export const tags = [\"a\",\"b\"];"));
    assert!(page.contains("export const authors = [{\"name\":\"Ada\",\"url\":null}];"));
    assert!(page.contains("let content = \"<p>body</p>\\n\";"));
    assert!(page.contains("src='data:image/png;base64,IMGDATA'"));
}

#[test]
fn component_rewrites_image_paths_per_content_type() {
    let html = "<img src=\"images/cat.png\">";
    let article = generate_svelte_component(&record(), html, true, "");
    assert!(article.contains("src=\\\"/images/articles/cat.png\\\""));
    let project = generate_svelte_component(&record(), html, false, "");
    assert!(project.contains("src=\\\"/images/projects/cat.png\\\""));
}

#[test]
fn component_formats_the_record_date() {
    let mut fm = record();
    fm.date = "1999-12-01".to_string();
    let page = generate_svelte_component(&fm, "", true, "");
    assert!(page.contains("export const date = 'December 01, 1999';"));
}

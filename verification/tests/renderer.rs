use site_pipeline::markdown::markdown_to_html;

#[test]
fn plain_text_round_trips_to_one_paragraph() {
    assert_eq!(markdown_to_html("hello world"), "<p>hello world</p>\n");
}

#[test]
fn heading_is_rendered() {
    assert_eq!(markdown_to_html("# Title"), "<h1>Title</h1>\n");
}

#[test]
fn emphasis_is_rendered() {
    assert_eq!(markdown_to_html("some *em* text"), "<p>some <em>em</em> text</p>\n");
}

#[test]
fn tables_are_rendered() {
    let md = "| a | b |\n| - | - |\n| 1 | 2 |\n";
    let html = markdown_to_html(md);
    assert!(html.contains("<table>"));
    assert!(html.contains("<td>1</td>"));
}

#[test]
fn markdown_list_is_rendered_and_wrapped() {
    let html = markdown_to_html("- one\n- two\n");
    assert_eq!(
        html,
        "<div style=\"margin-left: 2em;\"><ul>\n<li>one</li>\n<li>two</li>\n</ul></div>\n"
    );
}

#[test]
fn markdown_math_paragraph_is_rewritten() {
    let html = markdown_to_html("$$x^2$$\n\nand $y$ inline\n");
    assert!(html.contains("\\[x^2\\]"));
    assert!(html.contains("\\(y\\)"));
}

#[test]
fn indented_code_block_is_annotated() {
    let html = markdown_to_html("    python\n    print(1)\n");
    assert!(html.contains("<pre class=\"code-block\"><code class=\"language-python\">"));
}

use site_pipeline::rewrite::{
    classify_language, pass_block_math, pass_code_blocks, pass_inline_math, pass_lists,
};

fn chain(s: &str) -> String {
    let a = pass_block_math(s);
    let b = pass_inline_math(&a);
    let c = pass_lists(&b);
    pass_code_blocks(&c)
}

#[test]
fn block_math_is_rewritten() {
    assert_eq!(
        pass_block_math("<p>$$a + b\n= c$$</p>"),
        "\\[a + b\n= c\\]"
    );
}

#[test]
fn block_math_without_closing_is_kept() {
    assert_eq!(pass_block_math("<p>$$a + b</p>"), "<p>$$a + b</p>");
}

#[test]
fn inline_math_is_rewritten() {
    assert_eq!(pass_inline_math("x $a+b$ y"), "x \\(a+b\\) y");
}

#[test]
fn inline_math_needs_content_on_one_line() {
    assert_eq!(pass_inline_math("x $a\nb$ y"), "x $a\nb$ y");
    assert_eq!(pass_inline_math("x $$ y"), "x $$ y");
    assert_eq!(pass_inline_math("lone $ sign"), "lone $ sign");
}

#[test]
fn list_block_is_wrapped() {
    let html = "<ul>\n<li>one</li>\n<li>two</li>\n</ul>";
    assert_eq!(
        pass_lists(html),
        "<div style=\"margin-left: 2em;\"><ul>\n<li>one</li>\n<li>two</li>\n</ul></div>"
    );
}

#[test]
fn ordered_list_block_is_wrapped() {
    let html = "before\n<ol>\n<li>one</li>\n</ol>\nafter";
    assert_eq!(
        pass_lists(html),
        "before\n<div style=\"margin-left: 2em;\"><ol>\n<li>one</li>\n</ol></div>\nafter"
    );
}

#[test]
fn list_without_items_is_kept() {
    assert_eq!(pass_lists("<ul>\n</ul>"), "<ul>\n</ul>");
}

#[test]
fn code_block_beginning_with_python_gets_python_class() {
    let html = "<pre><code>python\nprint(1)\n</code></pre>";
    assert_eq!(
        pass_code_blocks(html),
        "<pre class=\"code-block\"><code class=\"language-python\">python\nprint(1)\n</code></pre>"
    );
}

#[test]
fn code_block_beginning_with_cpp_gets_cpp_class() {
    let html = "<pre><code>cpp code</code></pre>";
    assert_eq!(
        pass_code_blocks(html),
        "<pre class=\"code-block\"><code class=\"language-cpp\">cpp code</code></pre>"
    );
}

#[test]
fn code_block_with_unrelated_content_gets_none_class() {
    let html = "<pre><code>fn main() {}</code></pre>";
    assert_eq!(
        pass_code_blocks(html),
        "<pre class=\"code-block\"><code class=\"language-none\">fn main() {}</code></pre>"
    );
}

#[test]
fn language_classification_prefixes() {
    assert_eq!(classify_language("python3"), "language-python");
    assert_eq!(classify_language("vhdl entity"), "language-vhdl");
    assert_eq!(classify_language("cpp"), "language-cpp");
    assert_eq!(classify_language("c program"), "language-c");
    assert_eq!(classify_language("curious"), "language-c");
    assert_eq!(classify_language("rust"), "language-none");
    assert_eq!(classify_language(""), "language-none");
}

#[test]
fn chain_is_idempotent_on_processed_math_and_code() {
    let html = "<p>$$\\int x$$</p>\n<p>about $e$ and $\\pi$</p>\n<pre><code>python\nf()</code></pre>";
    let once = chain(html);
    let twice = chain(&once);
    assert_eq!(twice, once);
    assert!(once.contains("\\[\\int x\\]"));
    assert!(once.contains("\\(e\\)"));
    assert!(once.contains("language-python"));
}

#[test]
fn chain_applies_passes_in_order() {
    let html = "<p>$$M$$</p><ul>\n<li>a $b$ c</li>\n</ul>";
    let out = chain(html);
    assert_eq!(
        out,
        "\\[M\\]<div style=\"margin-left: 2em;\"><ul>\n<li>a \\(b\\) c</li>\n</ul></div>"
    );
}

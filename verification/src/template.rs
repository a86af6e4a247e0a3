//! The template renderer: interpolates the front-matter record and the
//! processed HTML fragment into the fixed page-component text, with the
//! metadata as exported bindings, the fragment as a JSON string literal in
//! the page state, and image references rewritten to the public asset path of
//! the content type.

use vstd::prelude::*;
use crate::front_matter::FrontMatter;
use crate::date::{Date, parse_date, format_date, formatted_date, year_of, month_of, day_of};
use crate::json::{json_string, json_string_list, json_author_list, json_string_spec,
    json_string_list_spec, json_author_list_spec};
use crate::text::{replace_from, replace_literal};

verus! {

/// Up to the title binding.
pub open spec fn tpl_head() -> Seq<char> {
    "<script>
    import { onMount } from 'svelte';
    import Prism from 'prismjs';
    import 'prismjs/themes/prism-okaidia.css';
    import 'prismjs/components/prism-python';
    import 'prismjs/components/prism-vhdl';
    import 'prismjs/components/prism-c';
    import 'prismjs/components/prism-cpp';

    export const title = '"@
}

/// Between the title and the date bindings.
pub open spec fn tpl_after_title() -> Seq<char> {
    "';
    export const date = '"@
}

/// Between the date and the tags bindings.
pub open spec fn tpl_after_date() -> Seq<char> {
    "';
    export const tags = "@
}

/// Between the tags and the authors bindings.
pub open spec fn tpl_after_tags() -> Seq<char> {
    ";
    export const authors = "@
}

/// Between the authors binding and the content literal.
pub open spec fn tpl_after_authors() -> Seq<char> {
    ";

    let content = "@
}

/// From the content literal to the profile image data.
pub open spec fn tpl_after_content() -> Seq<char> {
    ";

    onMount(() => {
      Prism.highlightAll();

      window.MathJax = {
        tex: {
          inlineMath: [['\\\\(', '\\\\)']],
          displayMath: [['\\\\[', '\\\\]'], ['$$', '$$']],
          processEscapes: true,
          processEnvironments: true
        },
        options: {
          skipHtmlTags: ['script', 'noscript', 'style', 'textarea', 'pre']
        }
      };

      const script = document.createElement('script');
      script.src = 'https://cdn.jsdelivr.net/npm/mathjax@3/es5/tex-chtml.js';
      script.async = true;
      document.head.appendChild(script);

      script.onload = () => {
        setTimeout(() => {
          MathJax.typesetPromise().catch((err) => {
            console.error('MathJax error:', err);
          });
        }, 100);
      };
    });
  </script>

  <div class=\"title\">
    <h1 class=\"title\">{title}</h1>

    <div class=\"meta\">
      <div class=\"profile\" itemprop=\"author\" itemtype=\"http://schema.org/Person\" style=\"height:48px\">
        <!-- svelte-ignore a11y-img-redundant-alt -->
        <img itemprop=\"image\" src='data:image/png;base64,"@
}

/// From the profile image data to the end: the page markup and stylesheet.
pub open spec fn tpl_tail() -> Seq<char> {
    "'>
        <span class=\"mono authors\">
          {#each authors as author, index}
            {#if author.url}
              <a itemprop=\"name\" href=\"{author.url}\">{author.name}</a>
            {:else}
              <span itemprop=\"name\">{author.name}</span>
            {/if}
            {#if index < authors.length - 1}<span class=\"ampersand\">&amp;</span>{/if}
          {/each}
          <p class=\"subtitle\">{date}</p>
        </span>
      </div>
    </div>
    <hr>

    <div class=\"content\">
      {@html content}
    </div>
  </div>

  <style>
    .authors .ampersand {
      display: inline-block;
      padding-right: 0.5em;
    }
    * {
      margin: 0;
      padding: 0;
      box-sizing: border-box;
      color: inherit;
      text-decoration: inherit;
    }

    html {
      background: var(--bg-0);
      color: var(--text-0);
      width: 100%;
      text-rendering: optimizeLegibility;
      font-feature-settings: \"kern\" 1;
      font-feature-settings: \"liga\" 1;
      min-width: 100vw;
      overflow-x: hidden;
      -webkit-text-size-adjust: 100%;
    }

    @media all and (min-width:640px) {
      html {
        font-size: 16.5px;
      }
    }

    @media all and (min-width:720px) {
      html {
        font-size: 17px;
      }
    }

    @media all and (min-width:960px) {
      html {
        font-size: 18px;
      }
    }

    body {
      background-color: #fffdf0;
      max-width: 944px;
      margin: 0 auto;
      padding: 0 24px;
      font-family: 'Berkeley Mono', monospace;
    }

    header, h1, h2, h3, .sans {
      font-family: 'Berkeley Mono', monospace;
      font-size: 18px;
    }

    code, .mono, summary {
      font-family: 'Berkeley Mono', monospace;
      font-weight: 500;
    }

    .img-right {
      float: right;
      height: 300px;
      padding-left: 2em;
    }

    body > header {
      display: flex;
      justify-content: space-between;
      align-items: center;
      margin: 2em 0;
    }

    nav a {
      margin-left: 1.5em;
      letter-spacing: 0.07em;
      font-size: .9rem;
    }

    .m {
      margin-left: 11%;
      position: relative;
    }

    .r {
      text-align: end;
    }

    h1 {
      font-size: 6em;
    }

    .red {
      color: #EF5350;
    }

    article {
      margin: 0 0 1rem -24px;
      padding-left: 20px;
      position: relative;
      border-left: solid 4px;
    }

    article > a {
      letter-spacing: 0.05em;
    }

    article > div {
      font-size: .9rem;
    }

    article > time {
      color: var(--text-1);
      font-size: .9rem;
      display: block;
      margin-bottom: 4px;
    }

    article > div {
      color: var(--text-1);
    }

    article a {
      color: var(--text-0);
      position: relative;
    }

    article h1 {
      font-size: 2rem;
      margin-bottom: 12px;
      font-weight: 700;
    }

    @media screen and (min-width: 1248px) {
      time {
        position: absolute;
        left: 0;
        top: 0;
        transform: translateX(calc(-100% - 24px));
      }
    }

    @media screen and (max-width: 1248px) {
      .shapes {
        display: none;
      }
    }

    @media screen and (max-width: 1200px) {
      .m {
        margin-left: 0;
      }
      .r {
        text-align: left;
      }

      hgroup {
        margin-left: 0;
        margin-right: 0;
      }

      h1 {
        font-size: 4em;
        line-height: 100%;
      }

      h2 {
        font-size: 2em;
        line-height: 100%;
      }
    }

    body {
      font-family: 'Berkeley Mono', monospace;
    }

    code, pre {
      font-family: 'Berkeley Mono', monospace;
    }

    .header {
      display: flex;
      justify-content: space-between;
      align-items: center;
      margin-top: 2rem;
      margin-bottom: 2rem;
    }

    .header__logo {
      font-family: sans-serif;
      font-size: 1.125rem;
    }

    .header__nav-link {
      margin-left: 1.5rem;
      font-size: 0.875rem;
      letter-spacing: 0.05em;
      font-family: sans-serif;
    }

    .main {
      max-width: 56rem;
      margin-left: auto;
      margin-right: auto;
      padding-left: 1.5rem;
      padding-right: 1.5rem;
    }

    h1 {
      font-size: 2rem;
      margin-bottom: 12px;
    }

    .profile > img {
      display: inline;
      object-fit: cover;
      height: 48px;
      width: 48px;
      border-radius: 100%;
      margin-right: 8px;
      background: var(--bg-1);
    }

    img:not(.profile img) {
      margin-top: 12px;
      margin-bottom: 12px;
    }

    pre {
      margin-top: 12px;
      margin-bottom: 12px;
    }

    .authors {
      position: absolute;
      margin-top: 4px;
      color: var(--text-1);
      font-size: 16px;
    }

    .subtitle {
      color: rgba(0, 0, 0, 66%);
      font-size: 16px;
    }

    hr {
      width: 164px;
      border: 2.5px solid;
      margin-top: 12px;
      margin-bottom: 32px;
    }

    h3, h2 {
      line-height: 24px;
    }

    h2 {
      font-size: 1.2em;
    }

    h1, h2, h3 {
      position: relative;
      margin: 1.2rem 0 0 2rem 0;
      margin-bottom: 12px;
      margin-top: 12px;
    }

    :not(.hgroup) h2:before {
      content: '\\#';
      position: absolute;
      margin-left: -19px;
    }

    table {
      border-collapse: separate;
      border-spacing: 10px;
    }

    th, td {
      padding: 10px;
      margin-bottom: 12px;
    }
  </style>
  "@
}

/// The pattern of a relative image reference in the fragment.
pub open spec fn img_src_pat() -> Seq<char> {
    "src=\"images/"@
}

/// The absolute public asset path the reference is rewritten to.
pub open spec fn img_src_repl(is_article: bool) -> Seq<char> {
    if is_article {
        "src=\"/images/articles/"@
    } else {
        "src=\"/images/projects/"@
    }
}

/// The fragment with every relative image reference rewritten.
pub open spec fn image_rewritten(html: Seq<char>, is_article: bool) -> Seq<char> {
    replace_from(html, img_src_pat(), img_src_repl(is_article), 0)
}

/// The record's date as a calendar date.
pub open spec fn date_of_record(fm: FrontMatter) -> Date {
    Date {
        year: year_of(fm.date@) as u32,
        month: month_of(fm.date@) as u8,
        day: day_of(fm.date@) as u8,
    }
}

/// The whole page-component text for one record and its processed fragment.
pub open spec fn component_text(
    fm: FrontMatter,
    html: Seq<char>,
    is_article: bool,
    profile_image: Seq<char>,
) -> Seq<char> {
    tpl_head() + fm.title@ + tpl_after_title() + formatted_date(date_of_record(fm))
        + tpl_after_date() + json_string_list_spec(fm.tags@) + tpl_after_tags()
        + json_author_list_spec(fm.authors@) + tpl_after_authors() + json_string_spec(
        image_rewritten(html, is_article),
    ) + tpl_after_content() + profile_image + tpl_tail()
}

/// Renders the page component for one record: the formatted date, the
/// metadata bindings, and the fragment with image references rewritten,
/// interpolated into the fixed template.
pub fn generate_svelte_component(
    frontmatter: &FrontMatter,
    html_content: &str,
    is_article: bool,
    profile_image: &str,
) -> (r: String)
    requires
        frontmatter.wf(),
    ensures
        r@ == component_text(*frontmatter, html_content@, is_article, profile_image@),
{
    // The record is well-formed, so its date text parses; the fallback arm
    // is unreachable.
    let date = match parse_date(frontmatter.date.as_str()) {
        Some(d) => d,
        None => {
            proof {
                assert(false);
            }
            Date { year: 1, month: 1, day: 1 }
        },
    };
    proof {
        assert(date == date_of_record(*frontmatter));
    }
    let formatted = format_date(&date);
    let tags_json = json_string_list(&frontmatter.tags);
    let authors_json = json_author_list(&frontmatter.authors);
    let rewritten = if is_article {
        replace_literal(html_content, "src=\"images/", "src=\"/images/articles/")
    } else {
        replace_literal(html_content, "src=\"images/", "src=\"/images/projects/")
    };
    let content_json = json_string(rewritten.as_str());
    let mut out = String::new();
    out.append("<script>
    import { onMount } from 'svelte';
    import Prism from 'prismjs';
    import 'prismjs/themes/prism-okaidia.css';
    import 'prismjs/components/prism-python';
    import 'prismjs/components/prism-vhdl';
    import 'prismjs/components/prism-c';
    import 'prismjs/components/prism-cpp';

    export const title = '");
    out.append(frontmatter.title.as_str());
    out.append("';
    export const date = '");
    out.append(formatted.as_str());
    out.append("';
    export const tags = ");
    out.append(tags_json.as_str());
    out.append(";
    export const authors = ");
    out.append(authors_json.as_str());
    out.append(";

    let content = ");
    out.append(content_json.as_str());
    out.append(";

    onMount(() => {
      Prism.highlightAll();

      window.MathJax = {
        tex: {
          inlineMath: [['\\\\(', '\\\\)']],
          displayMath: [['\\\\[', '\\\\]'], ['$$', '$$']],
          processEscapes: true,
          processEnvironments: true
        },
        options: {
          skipHtmlTags: ['script', 'noscript', 'style', 'textarea', 'pre']
        }
      };

      const script = document.createElement('script');
      script.src = 'https://cdn.jsdelivr.net/npm/mathjax@3/es5/tex-chtml.js';
      script.async = true;
      document.head.appendChild(script);

      script.onload = () => {
        setTimeout(() => {
          MathJax.typesetPromise().catch((err) => {
            console.error('MathJax error:', err);
          });
        }, 100);
      };
    });
  </script>

  <div class=\"title\">
    <h1 class=\"title\">{title}</h1>

    <div class=\"meta\">
      <div class=\"profile\" itemprop=\"author\" itemtype=\"http://schema.org/Person\" style=\"height:48px\">
        <!-- svelte-ignore a11y-img-redundant-alt -->
        <img itemprop=\"image\" src='data:image/png;base64,");
    out.append(profile_image);
    out.append("'>
        <span class=\"mono authors\">
          {#each authors as author, index}
            {#if author.url}
              <a itemprop=\"name\" href=\"{author.url}\">{author.name}</a>
            {:else}
              <span itemprop=\"name\">{author.name}</span>
            {/if}
            {#if index < authors.length - 1}<span class=\"ampersand\">&amp;</span>{/if}
          {/each}
          <p class=\"subtitle\">{date}</p>
        </span>
      </div>
    </div>
    <hr>

    <div class=\"content\">
      {@html content}
    </div>
  </div>

  <style>
    .authors .ampersand {
      display: inline-block;
      padding-right: 0.5em;
    }
    * {
      margin: 0;
      padding: 0;
      box-sizing: border-box;
      color: inherit;
      text-decoration: inherit;
    }

    html {
      background: var(--bg-0);
      color: var(--text-0);
      width: 100%;
      text-rendering: optimizeLegibility;
      font-feature-settings: \"kern\" 1;
      font-feature-settings: \"liga\" 1;
      min-width: 100vw;
      overflow-x: hidden;
      -webkit-text-size-adjust: 100%;
    }

    @media all and (min-width:640px) {
      html {
        font-size: 16.5px;
      }
    }

    @media all and (min-width:720px) {
      html {
        font-size: 17px;
      }
    }

    @media all and (min-width:960px) {
      html {
        font-size: 18px;
      }
    }

    body {
      background-color: #fffdf0;
      max-width: 944px;
      margin: 0 auto;
      padding: 0 24px;
      font-family: 'Berkeley Mono', monospace;
    }

    header, h1, h2, h3, .sans {
      font-family: 'Berkeley Mono', monospace;
      font-size: 18px;
    }

    code, .mono, summary {
      font-family: 'Berkeley Mono', monospace;
      font-weight: 500;
    }

    .img-right {
      float: right;
      height: 300px;
      padding-left: 2em;
    }

    body > header {
      display: flex;
      justify-content: space-between;
      align-items: center;
      margin: 2em 0;
    }

    nav a {
      margin-left: 1.5em;
      letter-spacing: 0.07em;
      font-size: .9rem;
    }

    .m {
      margin-left: 11%;
      position: relative;
    }

    .r {
      text-align: end;
    }

    h1 {
      font-size: 6em;
    }

    .red {
      color: #EF5350;
    }

    article {
      margin: 0 0 1rem -24px;
      padding-left: 20px;
      position: relative;
      border-left: solid 4px;
    }

    article > a {
      letter-spacing: 0.05em;
    }

    article > div {
      font-size: .9rem;
    }

    article > time {
      color: var(--text-1);
      font-size: .9rem;
      display: block;
      margin-bottom: 4px;
    }

    article > div {
      color: var(--text-1);
    }

    article a {
      color: var(--text-0);
      position: relative;
    }

    article h1 {
      font-size: 2rem;
      margin-bottom: 12px;
      font-weight: 700;
    }

    @media screen and (min-width: 1248px) {
      time {
        position: absolute;
        left: 0;
        top: 0;
        transform: translateX(calc(-100% - 24px));
      }
    }

    @media screen and (max-width: 1248px) {
      .shapes {
        display: none;
      }
    }

    @media screen and (max-width: 1200px) {
      .m {
        margin-left: 0;
      }
      .r {
        text-align: left;
      }

      hgroup {
        margin-left: 0;
        margin-right: 0;
      }

      h1 {
        font-size: 4em;
        line-height: 100%;
      }

      h2 {
        font-size: 2em;
        line-height: 100%;
      }
    }

    body {
      font-family: 'Berkeley Mono', monospace;
    }

    code, pre {
      font-family: 'Berkeley Mono', monospace;
    }

    .header {
      display: flex;
      justify-content: space-between;
      align-items: center;
      margin-top: 2rem;
      margin-bottom: 2rem;
    }

    .header__logo {
      font-family: sans-serif;
      font-size: 1.125rem;
    }

    .header__nav-link {
      margin-left: 1.5rem;
      font-size: 0.875rem;
      letter-spacing: 0.05em;
      font-family: sans-serif;
    }

    .main {
      max-width: 56rem;
      margin-left: auto;
      margin-right: auto;
      padding-left: 1.5rem;
      padding-right: 1.5rem;
    }

    h1 {
      font-size: 2rem;
      margin-bottom: 12px;
    }

    .profile > img {
      display: inline;
      object-fit: cover;
      height: 48px;
      width: 48px;
      border-radius: 100%;
      margin-right: 8px;
      background: var(--bg-1);
    }

    img:not(.profile img) {
      margin-top: 12px;
      margin-bottom: 12px;
    }

    pre {
      margin-top: 12px;
      margin-bottom: 12px;
    }

    .authors {
      position: absolute;
      margin-top: 4px;
      color: var(--text-1);
      font-size: 16px;
    }

    .subtitle {
      color: rgba(0, 0, 0, 66%);
      font-size: 16px;
    }

    hr {
      width: 164px;
      border: 2.5px solid;
      margin-top: 12px;
      margin-bottom: 32px;
    }

    h3, h2 {
      line-height: 24px;
    }

    h2 {
      font-size: 1.2em;
    }

    h1, h2, h3 {
      position: relative;
      margin: 1.2rem 0 0 2rem 0;
      margin-bottom: 12px;
      margin-top: 12px;
    }

    :not(.hgroup) h2:before {
      content: '\\#';
      position: absolute;
      margin-left: -19px;
    }

    table {
      border-collapse: separate;
      border-spacing: 10px;
    }

    th, td {
      padding: 10px;
      margin-bottom: 12px;
    }
  </style>
  ");
    proof {
        assert(out@ =~= component_text(*frontmatter, html_content@, is_article, profile_image@));
    }
    out
}

} // verus!

//! The per-document pipeline: split the front matter, decode the metadata,
//! render and post-process the body, and render the page component. Callers
//! hand in the document text and the slug derived from the file name, and get
//! back the record and the page text.

use vstd::prelude::*;
use crate::front_matter::{
    FrontMatter, DocError, SplitError, MetaError, extract_frontmatter, has_opening, sep_pos,
    body_of, block_of, yaml_parsed, decode_fields_ok, record_matches_doc, decode_result_spec,
};
use crate::markdown::{markdown_to_html, md_html_of};
use crate::rewrite::rewrite_chain;
use crate::template::{component_text, generate_svelte_component};

verus! {

/// Processes one document: the decoded record (with the given slug) and the
/// finished page-component text. On a well-delimited document it succeeds
/// exactly when the block decodes; the record then holds the block's values,
/// under the caller's slug.
pub fn process_document(
    content: &str,
    slug: &str,
    is_article: bool,
    profile_image: &str,
) -> (r: Result<(FrontMatter, String), DocError>)
    ensures
        !has_opening(content@) ==> r == Err::<(FrontMatter, String), DocError>(
            DocError::Split(SplitError::MissingOpeningDelimiter),
        ),
        has_opening(content@) && sep_pos(content@) == -1 ==> r == Err::<
            (FrontMatter, String),
            DocError,
        >(DocError::Split(SplitError::MissingClosingDelimiter)),
        has_opening(content@) && sep_pos(content@) >= 0 && r is Err ==> r->Err_0 is Meta
            && decode_result_spec(
            block_of(content@),
            Err::<FrontMatter, MetaError>(r->Err_0->Meta_0),
        ),
        r is Ok ==> ({
            let fm = r->Ok_0.0;
            let page = r->Ok_0.1;
            &&& has_opening(content@) && sep_pos(content@) >= 0
            &&& yaml_parsed(block_of(content@)) is Some
            &&& decode_fields_ok(yaml_parsed(block_of(content@))->Some_0)
            &&& record_matches_doc(yaml_parsed(block_of(content@))->Some_0, fm)
            &&& fm.wf()
            &&& fm.slug@ == slug@
            &&& page@ == component_text(
                fm,
                rewrite_chain(md_html_of(body_of(content@))),
                is_article,
                profile_image@,
            )
        }),
{
    let (mut fm, body) = match extract_frontmatter(content) {
        Err(e) => {
            return Err(e);
        },
        Ok(p) => p,
    };
    fm.slug = String::from_str(slug);
    let html = markdown_to_html(body.as_str());
    let page = generate_svelte_component(&fm, html.as_str(), is_article, profile_image);
    Ok((fm, page))
}

} // verus!

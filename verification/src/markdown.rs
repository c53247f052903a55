//! The conversion pipeline: Markdown is converted to HTML by the `comrak`
//! parser, and the HTML then passes through the stages that the options
//! enable, in a fixed order: syntax highlighting of code blocks, enhancement
//! of tables, rewriting of custom blocks.

pub mod code_blocks;
pub mod options;

pub use code_blocks::{highlight_code_blocks, render_code_block};
pub use options::{
    default_markdown_options, ComrakOptions, ExtensionOptions, MarkdownOptions, ParseOptions,
    RenderOptions,
};

use crate::error::{done, failed, outcome_view, ErrorKind, MarkdownError, Outcome};
use crate::extensions::blocks::{process_custom_blocks, rewritten_blocks};
use crate::extensions::tables::{enhanced_tables, process_tables};
use crate::markdown::code_blocks::highlighted_blocks;
use crate::markdown::options::inconsistency_detail;
use vstd::prelude::*;

verus! {

/// The HTML that the parser makes of a Markdown text under given options.
/// The conversion is the work of `comrak`; this is the name of its result.
pub uninterp spec fn base_html(markdown: Seq<char>, options: ComrakOptions) -> Seq<char>;

/// `markdown_to_html` of comrak, on parser options that are comrak's
/// defaults but for the fields that `ComrakOptions` holds, which are copied
/// over one for one. The parser accepts every text, and the result is a
/// function of the text and the options alone.
#[verifier::external_body]
fn comrak_to_html(markdown: &str, options: &ComrakOptions) -> (html: String)
    ensures
        html@ == base_html(markdown@, *options),
{
    let (e, r) = (options.extension, options.render);
    let mut o = comrak::Options::default();
    o.extension = comrak::ExtensionOptions {
        strikethrough: e.strikethrough, tagfilter: e.tagfilter, table: e.table,
        autolink: e.autolink, tasklist: e.tasklist, superscript: e.superscript,
        footnotes: e.footnotes, description_lists: e.description_lists, ..o.extension
    };
    o.parse.smart = options.parse.smart;
    o.render = comrak::RenderOptions {
        hardbreaks: r.hardbreaks, github_pre_lang: r.github_pre_lang, unsafe_: r.unsafe_,
        escape: r.escape, ..o.render
    };
    comrak::markdown_to_html(markdown, &o)
}

/// What processing makes of a Markdown text under given options.
///
/// Options that are not consistent are refused before anything is converted,
/// with an error of kind `Conversion` that carries the detail given by
/// `validate`. Otherwise the text is converted to HTML with raw HTML let
/// through, and the HTML passes through the enabled stages in this order:
/// highlighting of code blocks, enhancement of tables, rewriting of custom
/// blocks. A stage that is not enabled changes nothing. A failure of the
/// highlighting is the result of the whole.
pub open spec fn processed(content: Seq<char>, options: MarkdownOptions) -> Outcome {
    if !options.consistent() {
        failed(ErrorKind::Conversion, inconsistency_detail())
    } else {
        let base = base_html(content, options.comrak_options.with_raw_html());
        let highlighting = if options.enable_syntax_highlighting {
            highlighted_blocks(base)
        } else {
            Ok(base)
        };
        match highlighting {
            Err(e) => Err(e),
            Ok(highlighted_html) => {
                let tables = if options.enable_enhanced_tables {
                    enhanced_tables(highlighted_html)
                } else {
                    highlighted_html
                };
                Ok(
                    if options.enable_custom_blocks {
                        rewritten_blocks(tables)
                    } else {
                        tables
                    },
                )
            },
        }
    }
}

/// Processes the input Markdown content and converts it into HTML. Applies
/// syntax highlighting, enhanced tables and custom blocks as the options
/// say.
///
/// With every stage disabled the result is the HTML of the parser as it is.
/// With enhanced tables enabled and the table extension of the parser
/// disabled, the result is an error whatever the content.
pub fn process_markdown(content: &str, options: &MarkdownOptions) -> (r: Result<
    String,
    MarkdownError,
>)
    ensures
        outcome_view(r) == processed(content@, *options),
        !options.enable_syntax_highlighting && !options.enable_enhanced_tables
            && !options.enable_custom_blocks ==> outcome_view(r) == done(
            base_html(content@, options.comrak_options.with_raw_html()),
        ),
        options.enable_enhanced_tables && !options.comrak_options.extension.table ==> outcome_view(
            r,
        ) == failed(ErrorKind::Conversion, inconsistency_detail()),
{
    if let Err(msg) = options.validate() {
        return Err(MarkdownError::ConversionError(msg));
    }
    let mut comrak_opts = options.comrak_options;
    comrak_opts.render.unsafe_ = true;

    let mut html = comrak_to_html(content, &comrak_opts);

    if options.enable_syntax_highlighting {
        html = highlight_code_blocks(html.as_str())?;
    }
    if options.enable_enhanced_tables {
        html = process_tables(html.as_str());
    }
    if options.enable_custom_blocks {
        html = process_custom_blocks(html.as_str());
    }
    Ok(html)
}

} // verus!

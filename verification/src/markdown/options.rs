//! The options of the conversion: those of the Markdown parser, and the
//! switches of the stages that follow it.

use vstd::prelude::*;
use vstd::string::StringExecFns;

verus! {

/// The extensions of the Markdown grammar that the parser can be told to
/// accept.
#[derive(Debug, Clone, Copy, PartialEq, Eq, Structural)]
pub struct ExtensionOptions {
    /// Strikethrough text between tildes.
    pub strikethrough: bool,
    /// Filtering of the tags that the GFM tag filter lists.
    pub tagfilter: bool,
    /// Tables.
    pub table: bool,
    /// Links made of bare addresses.
    pub autolink: bool,
    /// Task list items.
    pub tasklist: bool,
    /// Superscript text between carets.
    pub superscript: bool,
    /// Footnotes.
    pub footnotes: bool,
    /// Description lists.
    pub description_lists: bool,
}

/// How the parser reads its input.
#[derive(Debug, Clone, Copy, PartialEq, Eq, Structural)]
pub struct ParseOptions {
    /// Punctuation is converted to its typographic form.
    pub smart: bool,
}

/// How the parser writes HTML.
#[derive(Debug, Clone, Copy, PartialEq, Eq, Structural)]
pub struct RenderOptions {
    /// Soft line breaks become hard line breaks.
    pub hardbreaks: bool,
    /// The language of a code block is written as an attribute of `pre`.
    pub github_pre_lang: bool,
    /// Raw HTML in the source is written to the output as it is.
    pub unsafe_: bool,
    /// Raw HTML in the source is escaped.
    pub escape: bool,
}

/// The options that are handed to the Markdown parser.
#[derive(Debug, Clone, Copy, PartialEq, Eq, Structural)]
pub struct ComrakOptions {
    /// The grammar extensions.
    pub extension: ExtensionOptions,
    /// The parse options.
    pub parse: ParseOptions,
    /// The render options.
    pub render: RenderOptions,
}

impl Default for ExtensionOptions {
    /// No extension is enabled.
    fn default() -> (r: Self)
        ensures
            r == (ExtensionOptions {
                strikethrough: false,
                tagfilter: false,
                table: false,
                autolink: false,
                tasklist: false,
                superscript: false,
                footnotes: false,
                description_lists: false,
            }),
    {
        ExtensionOptions {
            strikethrough: false,
            tagfilter: false,
            table: false,
            autolink: false,
            tasklist: false,
            superscript: false,
            footnotes: false,
            description_lists: false,
        }
    }
}

impl Default for ParseOptions {
    /// Punctuation is left as it is.
    fn default() -> (r: Self)
        ensures
            r == (ParseOptions { smart: false }),
    {
        ParseOptions { smart: false }
    }
}

impl Default for RenderOptions {
    /// No render option is set.
    fn default() -> (r: Self)
        ensures
            r == (RenderOptions {
                hardbreaks: false,
                github_pre_lang: false,
                unsafe_: false,
                escape: false,
            }),
    {
        RenderOptions { hardbreaks: false, github_pre_lang: false, unsafe_: false, escape: false }
    }
}

impl ComrakOptions {
    /// The options of plain CommonMark: no extension, no option set.
    pub open spec fn plain() -> ComrakOptions {
        ComrakOptions {
            extension: ExtensionOptions {
                strikethrough: false,
                tagfilter: false,
                table: false,
                autolink: false,
                tasklist: false,
                superscript: false,
                footnotes: false,
                description_lists: false,
            },
            parse: ParseOptions { smart: false },
            render: RenderOptions {
                hardbreaks: false,
                github_pre_lang: false,
                unsafe_: false,
                escape: false,
            },
        }
    }

    /// The options of plain CommonMark with tables.
    pub open spec fn with_tables() -> ComrakOptions {
        ComrakOptions {
            extension: ExtensionOptions {
                strikethrough: false,
                tagfilter: false,
                table: true,
                autolink: false,
                tasklist: false,
                superscript: false,
                footnotes: false,
                description_lists: false,
            },
            parse: ComrakOptions::plain().parse,
            render: ComrakOptions::plain().render,
        }
    }

    /// These options with raw HTML let through.
    pub open spec fn with_raw_html(self) -> ComrakOptions {
        ComrakOptions {
            extension: self.extension,
            parse: self.parse,
            render: RenderOptions {
                hardbreaks: self.render.hardbreaks,
                github_pre_lang: self.render.github_pre_lang,
                unsafe_: true,
                escape: self.render.escape,
            },
        }
    }
}

impl Default for ComrakOptions {
    /// The options of plain CommonMark.
    fn default() -> (r: Self)
        ensures
            r == ComrakOptions::plain(),
    {
        ComrakOptions {
            extension: ExtensionOptions::default(),
            parse: ParseOptions::default(),
            render: RenderOptions::default(),
        }
    }
}

/// Options for configuring Markdown processing behavior.
#[derive(Debug, Clone)]
pub struct MarkdownOptions {
    /// Options for the underlying Markdown parser.
    pub comrak_options: ComrakOptions,
    /// Enable or disable processing of custom blocks (e.g., note, warning, tip).
    pub enable_custom_blocks: bool,
    /// Enable or disable syntax highlighting for code blocks.
    pub enable_syntax_highlighting: bool,
    /// Enable or disable enhanced table formatting.
    pub enable_enhanced_tables: bool,
    /// Optional custom theme for syntax highlighting. It is kept with the
    /// options and has no effect on the output.
    pub syntax_theme: Option<String>,
}

/// What `validate` reports of options that are not consistent.
pub open spec fn inconsistency_detail() -> Seq<char> {
    "Enhanced tables are enabled, but Comrak table extension is disabled."@
}

impl Default for MarkdownOptions {
    /// Custom blocks, syntax highlighting and enhanced tables are all
    /// enabled, the parser has its plain options, and no theme is named.
    fn default() -> (r: Self)
        ensures
            r.comrak_options == ComrakOptions::plain(),
            r.enable_custom_blocks,
            r.enable_syntax_highlighting,
            r.enable_enhanced_tables,
            r.syntax_theme is None,
    {
        MarkdownOptions {
            comrak_options: ComrakOptions::default(),
            enable_custom_blocks: true,
            enable_syntax_highlighting: true,
            enable_enhanced_tables: true,
            syntax_theme: None,
        }
    }
}

impl MarkdownOptions {
    /// Whether the options are consistent: enhanced tables need the table
    /// extension of the parser.
    pub open spec fn consistent(&self) -> bool {
        self.enable_enhanced_tables ==> self.comrak_options.extension.table
    }

    /// Creates a new instance of `MarkdownOptions` with default values.
    pub fn new() -> (r: Self)
        ensures
            r.comrak_options == ComrakOptions::plain(),
            r.enable_custom_blocks,
            r.enable_syntax_highlighting,
            r.enable_enhanced_tables,
            r.syntax_theme is None,
    {
        MarkdownOptions::default()
    }

    /// Enables or disables custom blocks.
    pub fn with_custom_blocks(self, enable: bool) -> (r: Self)
        ensures
            r.enable_custom_blocks == enable,
            r.comrak_options == self.comrak_options,
            r.enable_syntax_highlighting == self.enable_syntax_highlighting,
            r.enable_enhanced_tables == self.enable_enhanced_tables,
            r.syntax_theme == self.syntax_theme,
    {
        let mut options = self;
        options.enable_custom_blocks = enable;
        options
    }

    /// Enables or disables syntax highlighting for code blocks.
    pub fn with_syntax_highlighting(self, enable: bool) -> (r: Self)
        ensures
            r.enable_syntax_highlighting == enable,
            r.comrak_options == self.comrak_options,
            r.enable_custom_blocks == self.enable_custom_blocks,
            r.enable_enhanced_tables == self.enable_enhanced_tables,
            r.syntax_theme == self.syntax_theme,
    {
        let mut options = self;
        options.enable_syntax_highlighting = enable;
        options
    }

    /// Enables or disables enhanced table formatting.
    pub fn with_enhanced_tables(self, enable: bool) -> (r: Self)
        ensures
            r.enable_enhanced_tables == enable,
            r.comrak_options == self.comrak_options,
            r.enable_custom_blocks == self.enable_custom_blocks,
            r.enable_syntax_highlighting == self.enable_syntax_highlighting,
            r.syntax_theme == self.syntax_theme,
    {
        let mut options = self;
        options.enable_enhanced_tables = enable;
        options
    }

    /// Sets a custom theme for syntax highlighting.
    pub fn with_custom_theme(self, theme: String) -> (r: Self)
        ensures
            r.syntax_theme == Some(theme),
            r.comrak_options == self.comrak_options,
            r.enable_custom_blocks == self.enable_custom_blocks,
            r.enable_syntax_highlighting == self.enable_syntax_highlighting,
            r.enable_enhanced_tables == self.enable_enhanced_tables,
    {
        let mut options = self;
        options.syntax_theme = Some(theme);
        options
    }

    /// Sets the options of the parser.
    pub fn with_comrak_options(self, options: ComrakOptions) -> (r: Self)
        ensures
            r.comrak_options == options,
            r.enable_custom_blocks == self.enable_custom_blocks,
            r.enable_syntax_highlighting == self.enable_syntax_highlighting,
            r.enable_enhanced_tables == self.enable_enhanced_tables,
            r.syntax_theme == self.syntax_theme,
    {
        let mut changed = self;
        changed.comrak_options = options;
        changed
    }

    /// Validates the options: they are refused exactly when enhanced tables
    /// are enabled while the table extension of the parser is not.
    pub fn validate(&self) -> (r: Result<(), String>)
        ensures
            r is Ok <==> self.consistent(),
            r matches Err(detail) ==> detail@ == inconsistency_detail(),
    {
        if self.enable_enhanced_tables && !self.comrak_options.extension.table {
            return Err(
                String::from_str(
                    "Enhanced tables are enabled, but Comrak table extension is disabled.",
                ),
            );
        }
        Ok(())
    }
}

/// Creates the options with which every stage is enabled and the table
/// extension of the parser is on, so that they are consistent.
pub fn default_markdown_options() -> (r: MarkdownOptions)
    ensures
        r.enable_custom_blocks,
        r.enable_syntax_highlighting,
        r.enable_enhanced_tables,
        r.syntax_theme is None,
        r.comrak_options == ComrakOptions::with_tables(),
        r.consistent(),
{
    let mut opts = ComrakOptions::default();
    opts.extension.table = true;
    MarkdownOptions::new().with_custom_blocks(true).with_syntax_highlighting(
        true,
    ).with_enhanced_tables(true).with_comrak_options(opts)
}

} // verus!

//! Error values of the conversion pipeline.

use vstd::prelude::*;
use vstd::string::StringExecFns;

verus! {

/// The ways in which Markdown processing can fail.
#[derive(Debug, Clone, Copy, PartialEq, Eq, Structural)]
pub enum ErrorKind {
    /// The Markdown source could not be parsed.
    Parse,
    /// A stage of the conversion to HTML failed.
    Conversion,
    /// A custom block carries a label that names no block type.
    CustomBlock,
    /// The highlighting engine failed on a piece of code.
    SyntaxHighlight,
    /// The options contradict each other.
    InvalidOptions,
    /// The grammars or themes of the highlighting engine are not available.
    SyntaxSet,
}

/// An error of Markdown processing: one variant per [`ErrorKind`], each with a
/// text that gives the detail.
#[derive(Debug)]
pub enum MarkdownError {
    /// An error occurred while parsing the Markdown content.
    ParseError(String),
    /// An error occurred while converting Markdown to HTML.
    ConversionError(String),
    /// An error occurred while processing a custom block.
    CustomBlockError(String),
    /// An error occurred while applying syntax highlighting.
    SyntaxHighlightError(String),
    /// An error occurred due to invalid options.
    InvalidOptionsError(String),
    /// An error occurred while loading a syntax set.
    SyntaxSetError(String),
}

/// The fixed text with which the message of an error of the given kind begins.
pub open spec fn message_prefix(kind: ErrorKind) -> Seq<char> {
    match kind {
        ErrorKind::Parse => "Failed to parse Markdown: "@,
        ErrorKind::Conversion => "Failed to convert Markdown to HTML: "@,
        ErrorKind::CustomBlock => "Failed to process custom block: "@,
        ErrorKind::SyntaxHighlight => "Syntax highlighting error: "@,
        ErrorKind::InvalidOptions => "Invalid Markdown options: "@,
        ErrorKind::SyntaxSet => "Failed to load syntax set: "@,
    }
}

/// The message of an error, given its kind and its detail.
pub open spec fn message_of(error: (ErrorKind, Seq<char>)) -> Seq<char> {
    message_prefix(error.0) + error.1
}

impl View for MarkdownError {
    type V = (ErrorKind, Seq<char>);

    /// An error is its kind together with the characters of its detail.
    open spec fn view(&self) -> (ErrorKind, Seq<char>) {
        match self {
            MarkdownError::ParseError(d) => (ErrorKind::Parse, d@),
            MarkdownError::ConversionError(d) => (ErrorKind::Conversion, d@),
            MarkdownError::CustomBlockError(d) => (ErrorKind::CustomBlock, d@),
            MarkdownError::SyntaxHighlightError(d) => (ErrorKind::SyntaxHighlight, d@),
            MarkdownError::InvalidOptionsError(d) => (ErrorKind::InvalidOptions, d@),
            MarkdownError::SyntaxSetError(d) => (ErrorKind::SyntaxSet, d@),
        }
    }
}

/// What a fallible stage yields, as plain values: the characters of a text,
/// or the view of an error.
pub type Outcome = Result<Seq<char>, (ErrorKind, Seq<char>)>;

/// The outcome that is the text `text`.
pub open spec fn done(text: Seq<char>) -> Outcome {
    Ok(text)
}

/// The outcome that is an error of the given kind with the given detail.
pub open spec fn failed(kind: ErrorKind, detail: Seq<char>) -> Outcome {
    Err((kind, detail))
}

/// The outcome that a fallible stage hands back: the characters of the text
/// on success, the view of the error otherwise.
pub open spec fn outcome_view(r: Result<String, MarkdownError>) -> Outcome {
    match r {
        Ok(text) => Ok(text@),
        Err(e) => Err(e@),
    }
}

impl MarkdownError {
    /// The kind of this error.
    pub fn kind(&self) -> (k: ErrorKind)
        ensures
            k == self@.0,
    {
        match self {
            MarkdownError::ParseError(_) => ErrorKind::Parse,
            MarkdownError::ConversionError(_) => ErrorKind::Conversion,
            MarkdownError::CustomBlockError(_) => ErrorKind::CustomBlock,
            MarkdownError::SyntaxHighlightError(_) => ErrorKind::SyntaxHighlight,
            MarkdownError::InvalidOptionsError(_) => ErrorKind::InvalidOptions,
            MarkdownError::SyntaxSetError(_) => ErrorKind::SyntaxSet,
        }
    }

    /// The detail that this error carries.
    pub fn detail(&self) -> (d: &str)
        ensures
            d@ == self@.1,
    {
        match self {
            MarkdownError::ParseError(d) => d.as_str(),
            MarkdownError::ConversionError(d) => d.as_str(),
            MarkdownError::CustomBlockError(d) => d.as_str(),
            MarkdownError::SyntaxHighlightError(d) => d.as_str(),
            MarkdownError::InvalidOptionsError(d) => d.as_str(),
            MarkdownError::SyntaxSetError(d) => d.as_str(),
        }
    }

    /// The message of this error: the prefix of its kind, then its detail.
    pub fn to_string(&self) -> (s: String)
        ensures
            s@ == message_of(self@),
    {
        let prefix = match self {
            MarkdownError::ParseError(_) => "Failed to parse Markdown: ",
            MarkdownError::ConversionError(_) => "Failed to convert Markdown to HTML: ",
            MarkdownError::CustomBlockError(_) => "Failed to process custom block: ",
            MarkdownError::SyntaxHighlightError(_) => "Syntax highlighting error: ",
            MarkdownError::InvalidOptionsError(_) => "Invalid Markdown options: ",
            MarkdownError::SyntaxSetError(_) => "Failed to load syntax set: ",
        };
        let mut s = String::from_str(prefix);
        s.append(self.detail());
        s
    }
}

/// A [`MarkdownError`] together with a note on what was being done when it
/// occurred.
#[derive(Debug)]
pub struct ContextError {
    /// What was being attempted.
    pub context: String,
    /// The error that stopped it.
    pub source: MarkdownError,
}

impl ContextError {
    /// The note on what was being attempted.
    pub fn to_string(&self) -> (s: String)
        ensures
            s@ == self.context@,
    {
        self.context.clone()
    }

    /// The underlying error.
    pub fn source(&self) -> (e: Option<&MarkdownError>)
        ensures
            e == Some(&self.source),
    {
        Some(&self.source)
    }
}

/// What `parse_markdown_with_context` notes on the errors it passes on.
pub open spec fn parsing_context() -> Seq<char> {
    "Failed while parsing markdown content"@
}

/// What parsing yields: an error of kind `Parse` on empty input, and a fixed
/// text on any other.
pub open spec fn parsed(input: Seq<char>) -> Outcome {
    if input.len() == 0 {
        failed(ErrorKind::Parse, "Input is empty"@)
    } else {
        done("Parsed markdown content"@)
    }
}

/// Parses Markdown content. Empty input is refused; any other is accepted.
pub fn some_markdown_parsing_function(input: &str) -> (r: Result<String, MarkdownError>)
    ensures
        outcome_view(r) == parsed(input@),
{
    if input.is_empty() {
        return Err(MarkdownError::ParseError(String::from_str("Input is empty")));
    }
    Ok(String::from_str("Parsed markdown content"))
}

/// Parses Markdown content and, where that fails, says in the error what was
/// being attempted.
pub fn parse_markdown_with_context(input: &str) -> (r: Result<String, ContextError>)
    ensures
        match r {
            Ok(s) => parsed(input@) == done(s@),
            Err(e) => parsed(input@) == failed(e.source@.0, e.source@.1) && e.context@
                == parsing_context(),
        },
{
    match some_markdown_parsing_function(input) {
        Ok(parsed_content) => Ok(parsed_content),
        Err(source) => Err(
            ContextError {
                context: String::from_str("Failed while parsing markdown content"),
                source,
            },
        ),
    }
}

} // verus!

//! Syntax highlighting of one piece of code.
//!
//! The rendering itself is the work of the `syntect` engine with the
//! grammars and themes that it bundles. What the engine yields is a fixed
//! function of the code, the language token and the theme name; the spec
//! functions without a body below are the names of those results.

use crate::error::{done, failed, outcome_view, ErrorKind, MarkdownError, Outcome};
use vstd::prelude::*;
use vstd::string::StringExecFns;

verus! {

/// Whether the engine's bundled theme set holds a theme called `name`.
pub uninterp spec fn theme_registered(name: Seq<char>) -> bool;

/// What the engine yields for `code` under the bundled grammar that answers
/// to `token`, in the colours of the theme `theme`: the HTML, or the text of
/// the engine's error. `None` where no bundled grammar answers to `token`.
pub uninterp spec fn grammar_rendering(code: Seq<char>, token: Seq<char>, theme: Seq<char>)
    -> Option<Result<Seq<char>, Seq<char>>>;

/// What the engine yields for `code` under its plain-text grammar, in the
/// colours of the theme `theme`: the HTML, or the text of the engine's error.
pub uninterp spec fn plain_rendering(code: Seq<char>, theme: Seq<char>) -> Result<
    Seq<char>,
    Seq<char>,
>;

/// The characters of a rendering or of the engine's error text.
pub open spec fn rendering_view(r: Result<String, String>) -> Result<Seq<char>, Seq<char>> {
    match r {
        Ok(html) => Ok(html@),
        Err(detail) => Err(detail@),
    }
}

/// The view of a rendering that may be missing.
pub open spec fn lookup_view(r: Option<Result<String, String>>) -> Option<
    Result<Seq<char>, Seq<char>>,
> {
    match r {
        Some(rendering) => Some(rendering_view(rendering)),
        None => None,
    }
}

/// `ThemeSet::load_defaults` of syntect and a lookup in the `themes` map of
/// the set it returns: whether the bundled themes include one of this name.
#[verifier::external_body]
fn theme_known(name: &str) -> (known: bool)
    ensures
        known == theme_registered(name@),
{
    syntect::highlighting::ThemeSet::load_defaults().themes.contains_key(name)
}

/// `highlighted_html_for_string` of syntect, on the bundled grammar that
/// `SyntaxSet::find_syntax_by_token` finds for `token` and on the bundled
/// theme called `theme`. Where no grammar is found the call is not made and
/// the result is `None`. An error of the engine is handed back as its text.
/// The theme must be one of the bundled set, since it is taken by index.
#[verifier::external_body]
fn render_with_grammar(code: &str, token: &str, theme: &str) -> (r: Option<Result<String, String>>)
    requires
        theme_registered(theme@),
    ensures
        lookup_view(r) == grammar_rendering(code@, token@, theme@),
{
    let syntaxes = syntect::parsing::SyntaxSet::load_defaults_newlines();
    let themes = syntect::highlighting::ThemeSet::load_defaults();
    let syntax = syntaxes.find_syntax_by_token(token)?;
    match syntect::html::highlighted_html_for_string(code, &syntaxes, syntax, &themes.themes[theme]) {
        Ok(html) => Some(Ok(html)),
        Err(e) => Some(Err(e.to_string())),
    }
}

/// `highlighted_html_for_string` of syntect, on the grammar that
/// `SyntaxSet::find_syntax_plain_text` returns for the bundled set and on the
/// bundled theme called `theme`. An error of the engine is handed back as its
/// text. The theme must be one of the bundled set, since it is taken by index.
#[verifier::external_body]
fn render_plain(code: &str, theme: &str) -> (r: Result<String, String>)
    requires
        theme_registered(theme@),
    ensures
        rendering_view(r) == plain_rendering(code@, theme@),
{
    let syntaxes = syntect::parsing::SyntaxSet::load_defaults_newlines();
    let themes = syntect::highlighting::ThemeSet::load_defaults();
    let syntax = syntaxes.find_syntax_plain_text();
    match syntect::html::highlighted_html_for_string(code, &syntaxes, syntax, &themes.themes[theme]) {
        Ok(html) => Ok(html),
        Err(e) => Err(e.to_string()),
    }
}

/// The name of the theme in whose colours code is rendered.
pub open spec fn theme_name() -> Seq<char> {
    "base16-ocean.dark"@
}

/// The detail of the error reported when the theme is not available.
pub open spec fn missing_theme_detail() -> Seq<char> {
    "Theme not found: base16-ocean.dark"@
}

/// The rendering chosen for a piece of code: that of the grammar answering
/// to the language token where there is one, that of plain text otherwise.
pub open spec fn chosen_rendering(code: Seq<char>, lang: Seq<char>) -> Result<
    Seq<char>,
    Seq<char>,
> {
    match grammar_rendering(code, lang, theme_name()) {
        Some(rendering) => rendering,
        None => plain_rendering(code, theme_name()),
    }
}

/// What highlighting a piece of code yields. An unknown language is no
/// error: the code is then rendered as plain text. A missing theme is an
/// error of kind `SyntaxSet`, and an error of the engine becomes one of kind
/// `SyntaxHighlight` that carries the engine's text.
pub open spec fn highlighted(code: Seq<char>, lang: Seq<char>) -> Outcome {
    if !theme_registered(theme_name()) {
        failed(ErrorKind::SyntaxSet, missing_theme_detail())
    } else {
        match chosen_rendering(code, lang) {
            Ok(html) => done(html),
            Err(detail) => failed(ErrorKind::SyntaxHighlight, detail),
        }
    }
}

/// Turns a rendering into the result of highlighting: the HTML as it is, the
/// engine's error text as an error of kind `SyntaxHighlight`.
pub fn highlighting_outcome(rendering: Result<String, String>) -> (r: Result<String, MarkdownError>)
    ensures
        outcome_view(r) == match rendering_view(rendering) {
            Ok(html) => done(html),
            Err(detail) => failed(ErrorKind::SyntaxHighlight, detail),
        },
{
    match rendering {
        Ok(html) => Ok(html),
        Err(detail) => Err(MarkdownError::SyntaxHighlightError(detail)),
    }
}

/// Applies syntax highlighting to a piece of code in the language that
/// `lang` names, and returns the HTML of the highlighted code.
pub fn apply_syntax_highlighting(code: &str, lang: &str) -> (r: Result<String, MarkdownError>)
    ensures
        outcome_view(r) == highlighted(code@, lang@),
{
    let theme = "base16-ocean.dark";
    if !theme_known(theme) {
        return Err(
            MarkdownError::SyntaxSetError(String::from_str("Theme not found: base16-ocean.dark")),
        );
    }
    let rendering = match render_with_grammar(code, lang, theme) {
        Some(rendering) => rendering,
        None => render_plain(code, theme),
    };
    highlighting_outcome(rendering)
}

} // verus!

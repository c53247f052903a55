//! Highlighting of the code blocks of an HTML document.
//!
//! A code block is found by its tags alone: `<pre><code class="language-`,
//! the language token, `">`, the code, and the first `</code></pre>` that
//! follows. The code is decoded from HTML, highlighted, and put back between
//! the same tags.

use crate::error::{
    done, failed, message_of, outcome_view, ErrorKind, MarkdownError, Outcome,
};
use crate::extensions::highlight::{apply_syntax_highlighting, highlighted};
use crate::text::{
    copy_range, find, find_from, from_chars, lemma_find_leftmost, lemma_find_none_skip,
    lemma_skip_skip, push_range, push_str, starts_with, starts_with_at, to_chars,
};
use vstd::prelude::*;
use vstd::string::StringExecFns;

verus! {

/// A text with its HTML character references replaced by the characters they
/// stand for. The decoding is the work of the `html_escape` crate; this is
/// the name of its result.
pub uninterp spec fn decoded_entities(text: Seq<char>) -> Seq<char>;

/// `decode_html_entities` of html_escape: the text with its character
/// references decoded, as an owned string.
#[verifier::external_body]
fn decode_entities(text: &str) -> (decoded: String)
    ensures
        decoded@ == decoded_entities(text@),
{
    html_escape::decode_html_entities(text).into_owned()
}

/// The characters with which a code block with a language annotation begins.
pub open spec fn code_open() -> Seq<char> {
    "<pre><code class=\"language-"@
}

/// The characters that end the language annotation.
pub open spec fn lang_end() -> Seq<char> {
    "\">"@
}

/// The characters that end a code block.
pub open spec fn code_close() -> Seq<char> {
    "</code></pre>"@
}

/// A code block found at the start of a text: its language token, its code
/// as it stands in the HTML, and the number of characters that it spans.
pub struct CodeBlock {
    /// The language token.
    pub lang: Seq<char>,
    /// The code, escaped as HTML.
    pub code: Seq<char>,
    /// The length of the whole block.
    pub len: int,
}

/// The code block with which `s` begins, if it begins with one. The language
/// token ends at the first `">`, the code at the first `</code></pre>` after
/// that.
pub open spec fn code_block_at_start(s: Seq<char>) -> Option<CodeBlock> {
    if !starts_with(s, code_open()) {
        None
    } else {
        let text = s.skip(code_open().len() as int);
        match find(text, lang_end()) {
            None => None,
            Some(q) => {
                let body = text.skip(q + lang_end().len());
                match find(body, code_close()) {
                    None => None,
                    Some(r) => Some(
                        CodeBlock {
                            lang: text.take(q),
                            code: body.take(r),
                            len: code_open().len() + q + lang_end().len() + r + code_close().len(),
                        },
                    ),
                }
            },
        }
    }
}

/// A code block with the given language token around a highlighted fragment.
pub open spec fn code_block_html(lang: Seq<char>, fragment: Seq<char>) -> Seq<char> {
    code_open() + lang + lang_end() + fragment + code_close()
}

/// The detail of the error for a code block that could not be highlighted:
/// it names the language and gives the message of the highlighting error.
pub open spec fn highlight_failure_detail(lang: Seq<char>, error: (ErrorKind, Seq<char>)) -> Seq<
    char,
> {
    "Failed to highlight code block in language '"@ + lang + "': "@ + message_of(error)
}

/// What a code block becomes: its code is decoded and highlighted, and the
/// fragment is wrapped as a code block of the same language; a failure of
/// the highlighting is an error of kind `Conversion`.
pub open spec fn rendered_code_block(block: CodeBlock) -> Outcome {
    match highlighted(decoded_entities(block.code), block.lang) {
        Ok(fragment) => done(code_block_html(block.lang, fragment)),
        Err(e) => failed(ErrorKind::Conversion, highlight_failure_detail(block.lang, e)),
    }
}

/// A code block that is found is not empty and lies within the text.
pub proof fn lemma_code_block_len(s: Seq<char>)
    ensures
        code_block_at_start(s) matches Some(block) ==> 0 < block.len <= s.len(),
{
    reveal_strlit("</code></pre>");
    if starts_with(s, code_open()) {
        let text = s.skip(code_open().len() as int);
        lemma_find_leftmost(text, lang_end());
        if let Some(q) = find(text, lang_end()) {
            lemma_find_leftmost(text.skip(q + lang_end().len()), code_close());
        }
    }
}

/// A document with each of its code blocks highlighted, from left to right;
/// what follows a code block is searched from the end of that block. All
/// text outside the code blocks is kept as it is. The first code block that
/// cannot be highlighted makes the whole an error.
pub open spec fn highlighted_blocks(s: Seq<char>) -> Outcome
    decreases s.len(),
{
    if s.len() == 0 {
        Ok(s)
    } else {
        match code_block_at_start(s) {
            Some(block) => {
                proof {
                    lemma_code_block_len(s);
                }
                match rendered_code_block(block) {
                    Err(e) => Err(e),
                    Ok(html) => prefixed(html, highlighted_blocks(s.skip(block.len))),
                }
            },
            None => prefixed(seq![s[0]], highlighted_blocks(s.skip(1))),
        }
    }
}

/// `result` with `prefix` before its text, where it is a text.
pub open spec fn prefixed(prefix: Seq<char>, result: Outcome) -> Outcome {
    match result {
        Ok(rest) => Ok(prefix + rest),
        Err(e) => Err(e),
    }
}

/// Where a code block lies in a buffer: the bounds of its language token and
/// of its code, and the index just after its end.
struct CodeSpan {
    lang_start: usize,
    lang_end: usize,
    code_start: usize,
    code_end: usize,
    end: usize,
}

impl CodeSpan {
    /// Whether the bounds lie in order within a buffer of the given length.
    spec fn fits(self, len: int) -> bool {
        self.lang_start <= self.lang_end <= self.code_start <= self.code_end <= self.end <= len
    }

    /// The code block that this span marks in `s`, as seen from index `from`.
    spec fn block(self, s: Seq<char>, from: int) -> CodeBlock {
        CodeBlock {
            lang: s.subrange(self.lang_start as int, self.lang_end as int),
            code: s.subrange(self.code_start as int, self.code_end as int),
            len: self.end - from,
        }
    }
}

/// The fixed texts by which a code block is found, as character buffers.
struct CodeTags {
    open: Vec<char>,
    lang_end: Vec<char>,
    close: Vec<char>,
}

impl CodeTags {
    /// Whether the buffers hold the texts that the spec functions name.
    spec fn wf(&self) -> bool {
        &&& self.open@ == code_open()
        &&& self.lang_end@ == lang_end()
        &&& self.close@ == code_close()
    }

    /// Makes the buffers.
    fn new() -> (tags: CodeTags)
        ensures
            tags.wf(),
    {
        CodeTags {
            open: to_chars("<pre><code class=\"language-"),
            lang_end: to_chars("\">"),
            close: to_chars("</code></pre>"),
        }
    }
}

/// What a look at one index of a buffer finds.
enum Scan {
    /// A code block starts at the index.
    Block(CodeSpan),
    /// No code block starts at the index.
    NotHere,
    /// No code block starts at the index or anywhere after it.
    NoneLeft,
}

/// Whether no suffix of `s` begins with a code block.
pub open spec fn no_code_blocks(s: Seq<char>) -> bool {
    forall|k: int| 0 <= k <= s.len() ==> #[trigger] code_block_at_start(s.skip(k)) is None
}

/// A document without code blocks is highlighted to itself.
pub proof fn lemma_no_code_blocks(s: Seq<char>)
    requires
        no_code_blocks(s),
    ensures
        highlighted_blocks(s) == done(s),
    decreases s.len(),
{
    assert(s.skip(0) =~= s);
    if s.len() > 0 {
        let t = s.skip(1);
        assert forall|k: int| 0 <= k <= t.len() implies #[trigger] code_block_at_start(t.skip(k))
            is None by {
            lemma_skip_skip(s, 1, k);
            assert(code_block_at_start(s.skip(1 + k)) is None);
        }
        lemma_no_code_blocks(t);
        assert(seq![s[0]] + t =~= s);
    }
}

/// Where the start of a code block is followed by no end of a language
/// token, or by one with no end of a code block after it, no suffix of the
/// text begins with a code block.
proof fn lemma_no_code_blocks_left(s: Seq<char>)
    requires
        starts_with(s, code_open()),
        code_block_at_start(s) is None,
    ensures
        no_code_blocks(s),
{
    let open = code_open().len() as int;
    let text = s.skip(open);
    lemma_find_leftmost(text, lang_end());
    assert forall|k: int| 0 <= k <= s.len() implies #[trigger] code_block_at_start(s.skip(k))
        is None by {
        if starts_with(s.skip(k), code_open()) {
            let later = s.skip(k).skip(open);
            lemma_skip_skip(s, k, open);
            lemma_skip_skip(s, open, k);
            assert(later == text.skip(k));
            match find(text, lang_end()) {
                None => {
                    lemma_find_none_skip(text, lang_end(), k);
                },
                Some(q) => {
                    let body = text.skip(q + lang_end().len());
                    assert(find(body, code_close()) is None);
                    lemma_find_leftmost(later, lang_end());
                    if let Some(q2) = find(later, lang_end()) {
                        lemma_skip_skip(text, k, q2);
                        assert(k + q2 >= q);
                        let shift = k + q2 - q;
                        lemma_find_none_skip(body, code_close(), shift);
                        lemma_skip_skip(text, q + lang_end().len(), shift);
                        lemma_skip_skip(text, k, q2 + lang_end().len());
                    }
                },
            }
        }
    }
}

/// Looks for the code block that starts at index `i`.
fn code_block_at(s: &Vec<char>, i: usize, tags: &CodeTags) -> (r: Scan)
    requires
        i <= s.len(),
        tags.wf(),
    ensures
        match r {
            Scan::Block(span) => span.fits(s.len() as int) && code_block_at_start(
                s@.skip(i as int),
            ) == Some(span.block(s@, i as int)),
            Scan::NotHere => code_block_at_start(s@.skip(i as int)) is None,
            Scan::NoneLeft => no_code_blocks(s@.skip(i as int)),
        },
{
    if !starts_with_at(s, &tags.open, i) {
        return Scan::NotHere;
    }
    let lang_start = i + tags.open.len();
    let ghost text = s@.skip(lang_start as int);
    proof {
        lemma_skip_skip(s@, i as int, tags.open.len() as int);
    }
    match find_from(s, &tags.lang_end, lang_start) {
        None => {
            proof {
                lemma_no_code_blocks_left(s@.skip(i as int));
            }
            Scan::NoneLeft
        },
        Some(q) => {
            let code_start = q + tags.lang_end.len();
            let ghost body = s@.skip(code_start as int);
            proof {
                lemma_skip_skip(s@, lang_start as int, code_start - lang_start);
            }
            match find_from(s, &tags.close, code_start) {
                None => {
                    proof {
                        lemma_no_code_blocks_left(s@.skip(i as int));
                    }
                    Scan::NoneLeft
                },
                Some(r) => {
                    proof {
                        assert(text.take(q - lang_start) =~= s@.subrange(
                            lang_start as int,
                            q as int,
                        ));
                        assert(body.take(r - code_start) =~= s@.subrange(
                            code_start as int,
                            r as int,
                        ));
                    }
                    Scan::Block(
                        CodeSpan {
                            lang_start,
                            lang_end: q,
                            code_start,
                            code_end: r,
                            end: r + tags.close.len(),
                        },
                    )
                },
            }
        },
    }
}

/// Turns the outcome of highlighting the code of a block into what stands
/// in place of the block: the fragment wrapped as a code block of the same
/// language, or an error of kind `Conversion` that names the language.
pub fn render_code_block(lang: &str, outcome: Result<String, MarkdownError>) -> (r: Result<
    String,
    MarkdownError,
>)
    ensures
        outcome_view(r) == match outcome_view(outcome) {
            Ok(fragment) => done(code_block_html(lang@, fragment)),
            Err(e) => failed(ErrorKind::Conversion, highlight_failure_detail(lang@, e)),
        },
{
    match outcome {
        Ok(fragment) => {
            let mut html = String::from_str("<pre><code class=\"language-");
            html.append(lang);
            html.append("\">");
            html.append(fragment.as_str());
            html.append("</code></pre>");
            Ok(html)
        },
        Err(e) => {
            let mut detail = String::from_str("Failed to highlight code block in language '");
            detail.append(lang);
            detail.append("': ");
            detail.append(e.to_string().as_str());
            Err(MarkdownError::ConversionError(detail))
        },
    }
}

/// Highlights the code blocks of a document. All text outside the code
/// blocks is kept as it is. A document without code blocks comes back
/// unchanged. The first block that cannot be highlighted ends the work with
/// an error of kind `Conversion`.
pub fn highlight_code_blocks(html: &str) -> (r: Result<String, MarkdownError>)
    ensures
        outcome_view(r) == highlighted_blocks(html@),
        no_code_blocks(html@) ==> outcome_view(r) == done(html@),
{
    proof {
        if no_code_blocks(html@) {
            lemma_no_code_blocks(html@);
        }
    }
    let s = to_chars(html);
    let tags = CodeTags::new();
    let mut out: Vec<char> = Vec::new();
    let mut i: usize = 0;
    proof {
        assert(s@.skip(0) =~= s@);
        let whole = highlighted_blocks(s@);
        if whole is Ok {
            assert(out@ + whole->Ok_0 =~= whole->Ok_0);
        }
    }
    while i < s.len()
        invariant
            i <= s.len(),
            s@ == html@,
            tags.wf(),
            no_code_blocks(html@) ==> highlighted_blocks(html@) == done(html@),
            highlighted_blocks(s@) == prefixed(out@, highlighted_blocks(s@.skip(i as int))),
        decreases s.len() - i,
    {
        let ghost before = out@;
        let ghost rest = s@.skip(i as int);
        match code_block_at(&s, i, &tags) {
            Scan::Block(span) => {
                let lang = from_chars(&copy_range(&s, span.lang_start, span.lang_end));
                let code = from_chars(&copy_range(&s, span.code_start, span.code_end));
                let decoded = decode_entities(code.as_str());
                let outcome = apply_syntax_highlighting(decoded.as_str(), lang.as_str());
                let rendered = render_code_block(lang.as_str(), outcome);
                proof {
                    let block = span.block(s@, i as int);
                    lemma_code_block_len(rest);
                    lemma_skip_skip(s@, i as int, span.end - i);
                    assert(code_block_at_start(rest) == Some(block));
                    assert(outcome_view(rendered) == rendered_code_block(block));
                }
                match rendered {
                    Err(e) => {
                        return Err(e);
                    },
                    Ok(block_html) => {
                        push_str(&mut out, block_html.as_str());
                        proof {
                            let tail = highlighted_blocks(s@.skip(span.end as int));
                            if tail is Ok {
                                assert(out@ + tail->Ok_0 =~= before + (block_html@ + tail->Ok_0));
                            }
                        }
                        i = span.end;
                    },
                }
            },
            Scan::NotHere => {
                out.push(s[i]);
                proof {
                    lemma_skip_skip(s@, i as int, 1);
                    let tail = highlighted_blocks(rest.skip(1));
                    if tail is Ok {
                        assert(out@ + tail->Ok_0 =~= before + (seq![s@[i as int]] + tail->Ok_0));
                    }
                }
                i += 1;
            },
            Scan::NoneLeft => {
                push_range(&mut out, &s, i, s.len());
                proof {
                    lemma_no_code_blocks(rest);
                    assert(s@.subrange(i as int, s.len() as int) =~= rest);
                }
                return Ok(from_chars(&out));
            },
        }
    }
    assert(out@ + Seq::<char>::empty() =~= out@);
    Ok(from_chars(&out))
}

} // verus!

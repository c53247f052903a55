//! Custom blocks: a container that is labelled as a note, a warning, a tip
//! and so on is turned into a styled alert.
//!
//! A container is found by its tags alone: `<div`, white space, `class=`, the
//! label with or without quotes, `>`, the inner text, and the first `</div>`
//! that follows. Label and inner text stand on one line: where a line break
//! comes before the closing tag, there is no container. Containers do not
//! nest. A label that names no block type is no failure of the rewrite: the
//! container is then replaced by an alert that shows the message of the
//! classification error.

use crate::error::message_of;
use crate::extensions::block_type::{classified, kind_of, CustomBlockType};
use crate::text::{
    copy_range, find, from_chars, lemma_find_leftmost, lemma_skip_skip, push_all, push_str,
    starts_with, starts_with_at, to_chars,
};
use vstd::prelude::*;

verus! {

/// Whether a character is white space: one of the characters to which
/// Unicode gives the property `White_Space`.
pub open spec fn is_space(c: char) -> bool {
    let n = c as u32;
    (0x09 <= n && n <= 0x0d) || n == 0x20 || n == 0x85 || n == 0xa0 || n == 0x1680 || (0x2000 <= n
        && n <= 0x200a) || n == 0x2028 || n == 0x2029 || n == 0x202f || n == 0x205f || n == 0x3000
}

/// Whether a character is a single or a double quote.
pub open spec fn is_quote(c: char) -> bool {
    c == '"' || c == '\''
}

/// The number of white-space characters with which `s` begins.
pub open spec fn space_run(s: Seq<char>) -> int
    decreases s.len(),
{
    if s.len() > 0 && is_space(s[0]) {
        1 + space_run(s.skip(1))
    } else {
        0
    }
}

/// A container found at the start of a text: its label, its inner text, and
/// the number of characters that it spans.
pub struct Container {
    /// The label: the value of the class attribute, without its quotes.
    pub label: Seq<char>,
    /// The text between the opening tag and the closing tag.
    pub inner: Seq<char>,
    /// The length of the whole container, from `<` to the last `>`.
    pub len: int,
}

/// The characters with which the opening tag of a container begins.
pub open spec fn container_open() -> Seq<char> {
    "<div"@
}

/// The name of the attribute that carries the label, with its equals sign.
pub open spec fn class_attr() -> Seq<char> {
    "class="@
}

/// The character that ends a tag.
pub open spec fn tag_end() -> Seq<char> {
    ">"@
}

/// The closing tag of a container.
pub open spec fn container_close() -> Seq<char> {
    "</div>"@
}

/// Whether a text holds a line break.
pub open spec fn has_line_break(s: Seq<char>) -> bool {
    s.contains('\n')
}

/// The label and the inner text of a container whose class attribute has
/// just been read: `value` is what follows `class=`. One quote before the
/// label and one quote before the `>` that ends the tag belong to neither.
/// The label ends at the first `>`, the inner text at the first closing tag
/// after it, and no line break stands before that closing tag. The length
/// is counted from the start of `value`.
pub open spec fn container_body(value: Seq<char>) -> Option<Container> {
    let quoted: int = if value.len() > 0 && is_quote(value[0]) {
        1
    } else {
        0
    };
    let text = value.skip(quoted);
    match find(text, tag_end()) {
        None => None,
        Some(g) => {
            let label_len = if g > 0 && is_quote(text[g - 1]) {
                g - 1
            } else {
                g
            };
            let body = text.skip(g + tag_end().len());
            match find(body, container_close()) {
                None => None,
                Some(d) => if has_line_break(text.take(g)) || has_line_break(body.take(d)) {
                    None
                } else {
                    Some(
                        Container {
                            label: text.take(label_len),
                            inner: body.take(d),
                            len: quoted + g + tag_end().len() + d + container_close().len(),
                        },
                    )
                },
            }
        },
    }
}

/// The container with which `s` begins, if it begins with one: `<div`, white
/// space, `class=`, and then label and inner text as `container_body` reads
/// them.
pub open spec fn container_at_start(s: Seq<char>) -> Option<Container> {
    if !starts_with(s, container_open()) {
        None
    } else {
        let after_open = s.skip(container_open().len() as int);
        let spaces = space_run(after_open);
        let after_spaces = after_open.skip(spaces);
        if spaces == 0 || !starts_with(after_spaces, class_attr()) {
            None
        } else {
            match container_body(after_spaces.skip(class_attr().len() as int)) {
                None => None,
                Some(c) => Some(
                    Container {
                        label: c.label,
                        inner: c.inner,
                        len: container_open().len() + spaces + class_attr().len() + c.len,
                    },
                ),
            }
        }
    }
}

/// The alert for a block of the given type with the given content.
pub open spec fn alert_html(kind: CustomBlockType, content: Seq<char>) -> Seq<char> {
    "<div class=\"alert "@ + kind.alert_class() + "\" role=\"alert\"><strong>"@ + kind.title()
        + ":</strong> "@ + content + "</div>"@
}

/// The alert that shows the message of an error.
pub open spec fn error_alert_html(message: Seq<char>) -> Seq<char> {
    "<div class=\"alert alert-danger\" role=\"alert\"><strong>Error:</strong> "@ + message
        + "</div>"@
}

/// What stands in place of a container: the alert of its block type around
/// its inner text or, where the label names no block type, the alert that
/// shows the message of the classification error.
pub open spec fn container_html(label: Seq<char>, inner: Seq<char>) -> Seq<char> {
    match classified(label) {
        Ok(kind) => alert_html(kind, inner),
        Err(e) => error_alert_html(message_of(e)),
    }
}

/// The white space at the start of a text is no longer than the text.
pub proof fn lemma_space_run_bounds(s: Seq<char>)
    ensures
        0 <= space_run(s) <= s.len(),
    decreases s.len(),
{
    if s.len() > 0 && is_space(s[0]) {
        lemma_space_run_bounds(s.skip(1));
    }
}

/// A container that is found is not empty and lies within the text.
pub proof fn lemma_container_len(s: Seq<char>)
    ensures
        container_at_start(s) matches Some(c) ==> 0 < c.len <= s.len(),
{
    reveal_strlit("<div");
    if starts_with(s, container_open()) {
        let after_open = s.skip(container_open().len() as int);
        lemma_space_run_bounds(after_open);
        let after_spaces = after_open.skip(space_run(after_open));
        if starts_with(after_spaces, class_attr()) {
            let value = after_spaces.skip(class_attr().len() as int);
            let quoted: int = if value.len() > 0 && is_quote(value[0]) {
                1
            } else {
                0
            };
            let text = value.skip(quoted);
            lemma_find_leftmost(text, tag_end());
            if let Some(g) = find(text, tag_end()) {
                lemma_find_leftmost(text.skip(g + tag_end().len()), container_close());
            }
        }
    }
}

/// A document with each of its containers replaced, from left to right;
/// what follows a container is searched from the end of that container.
pub open spec fn rewritten_blocks(s: Seq<char>) -> Seq<char>
    decreases s.len(),
{
    if s.len() == 0 {
        s
    } else {
        match container_at_start(s) {
            Some(c) => {
                proof {
                    lemma_container_len(s);
                }
                container_html(c.label, c.inner) + rewritten_blocks(s.skip(c.len))
            },
            None => seq![s[0]] + rewritten_blocks(s.skip(1)),
        }
    }
}

/// Tells whether a character is white space.
fn space(c: char) -> (r: bool)
    ensures
        r == is_space(c),
{
    let n: u32 = c as u32;
    (0x09 <= n && n <= 0x0d) || n == 0x20 || n == 0x85 || n == 0xa0 || n == 0x1680 || (0x2000 <= n
        && n <= 0x200a) || n == 0x2028 || n == 0x2029 || n == 0x202f || n == 0x205f || n == 0x3000
}

/// Tells whether a character is a quote.
fn quote(c: char) -> (r: bool)
    ensures
        r == is_quote(c),
{
    c == '"' || c == '\''
}

/// The index of the first character at or after `i` that is not white space.
fn skip_spaces(s: &Vec<char>, i: usize) -> (j: usize)
    requires
        i <= s.len(),
    ensures
        i <= j <= s.len(),
        j - i == space_run(s@.skip(i as int)),
{
    let mut j: usize = i;
    while j < s.len() && space(s[j])
        invariant
            i <= j <= s.len(),
            space_run(s@.skip(i as int)) == (j - i) + space_run(s@.skip(j as int)),
        decreases s.len() - j,
    {
        proof {
            lemma_skip_skip(s@, j as int, 1);
        }
        j += 1;
    }
    j
}

/// What a search that stays on one line finds: `Some(k)` where the pattern
/// occurs first at `k` and no line break stands before it, `None` where it
/// does not occur or a line break comes first.
spec fn found_on_line(s: Seq<char>, pat: Seq<char>, r: Option<int>) -> bool {
    match r {
        Some(k) => find(s, pat) == Some(k) && !has_line_break(s.take(k)),
        None => match find(s, pat) {
            Some(k) => has_line_break(s.take(k)),
            None => true,
        },
    }
}

/// Index of the leftmost occurrence of `pat` in `s` that starts at or after
/// `from`, unless a line break comes before it. The search ends at the first
/// line break.
fn find_on_line(s: &Vec<char>, pat: &Vec<char>, from: usize) -> (r: Option<usize>)
    requires
        from <= s.len(),
    ensures
        match r {
            Some(k) => from <= k && k + pat.len() <= s.len() && found_on_line(
                s@.skip(from as int),
                pat@,
                Some(k - from),
            ),
            None => found_on_line(s@.skip(from as int), pat@, None),
        },
{
    let ghost rest = s@.skip(from as int);
    let mut j: usize = from;
    loop
        invariant
            from <= j <= s.len(),
            rest == s@.skip(from as int),
            find(rest, pat@) == match find(s@.skip(j as int), pat@) {
                Some(k) => Some(k + j - from),
                None => None,
            },
            forall|k: int| 0 <= k < j - from ==> rest[k] != '\n',
        decreases s.len() - j,
    {
        if starts_with_at(s, pat, j) {
            return Some(j);
        }
        if j == s.len() {
            return None;
        }
        proof {
            lemma_skip_skip(s@, j as int, 1);
        }
        if s[j] == '\n' {
            proof {
                if let Some(k) = find(rest, pat@) {
                    lemma_find_leftmost(s@.skip(j as int).skip(1), pat@);
                    assert(k > j - from);
                    assert(rest[j - from] == '\n');
                    assert(rest.take(k)[j - from] == '\n');
                }
            }
            return None;
        }
        j += 1;
    }
}

/// Where a container lies in a buffer: the bounds of its label and of its
/// inner text, and the index just after its closing tag.
struct ContainerSpan {
    label_start: usize,
    label_end: usize,
    inner_start: usize,
    inner_end: usize,
    end: usize,
}

impl ContainerSpan {
    /// Whether the bounds lie in order within a buffer of the given length.
    spec fn fits(self, len: int) -> bool {
        self.label_start <= self.label_end <= self.inner_start <= self.inner_end <= self.end <= len
    }

    /// The container that this span marks in `s`, as seen from index `from`.
    spec fn container(self, s: Seq<char>, from: int) -> Container {
        Container {
            label: s.subrange(self.label_start as int, self.label_end as int),
            inner: s.subrange(self.inner_start as int, self.inner_end as int),
            len: self.end - from,
        }
    }
}

/// The fixed texts by which a container is found, as character buffers.
struct Tags {
    open: Vec<char>,
    class: Vec<char>,
    end: Vec<char>,
    close: Vec<char>,
}

impl Tags {
    /// Whether the buffers hold the texts that the spec functions name.
    spec fn wf(&self) -> bool {
        &&& self.open@ == container_open()
        &&& self.class@ == class_attr()
        &&& self.end@ == tag_end()
        &&& self.close@ == container_close()
    }

    /// Makes the buffers.
    fn new() -> (tags: Tags)
        ensures
            tags.wf(),
    {
        Tags {
            open: to_chars("<div"),
            class: to_chars("class="),
            end: to_chars(">"),
            close: to_chars("</div>"),
        }
    }
}

/// Reads label and inner text of a container whose class attribute value
/// starts at index `i`.
fn container_body_at(s: &Vec<char>, i: usize, tags: &Tags) -> (r: Option<ContainerSpan>)
    requires
        i <= s.len(),
        tags.wf(),
    ensures
        match r {
            Some(span) => span.fits(s.len() as int) && i <= span.label_start
                && container_body(s@.skip(i as int)) == Some(span.container(s@, i as int)),
            None => container_body(s@.skip(i as int)) is None,
        },
{
    let ghost value = s@.skip(i as int);
    let start = if i < s.len() && quote(s[i]) {
        i + 1
    } else {
        i
    };
    let ghost text = value.skip(start - i);
    proof {
        lemma_skip_skip(s@, i as int, start - i);
    }
    match find_on_line(s, &tags.end, start) {
        None => None,
        Some(g) => {
            let label_end = if g > start && quote(s[g - 1]) {
                g - 1
            } else {
                g
            };
            let inner_start = g + tags.end.len();
            proof {
                lemma_skip_skip(s@, start as int, inner_start - start);
            }
            let ghost body = text.skip(inner_start - start);
            match find_on_line(s, &tags.close, inner_start) {
                None => None,
                Some(d) => {
                    proof {
                        assert(text.take(label_end - start) =~= s@.subrange(
                            start as int,
                            label_end as int,
                        ));
                        assert(body.take(d - inner_start) =~= s@.subrange(
                            inner_start as int,
                            d as int,
                        ));
                    }
                    Some(
                        ContainerSpan {
                            label_start: start,
                            label_end,
                            inner_start,
                            inner_end: d,
                            end: d + tags.close.len(),
                        },
                    )
                },
            }
        },
    }
}

/// Finds the container that starts at index `i`, if one starts there.
fn container_at(s: &Vec<char>, i: usize, tags: &Tags) -> (r: Option<ContainerSpan>)
    requires
        i <= s.len(),
        tags.wf(),
    ensures
        match r {
            Some(span) => span.fits(s.len() as int) && container_at_start(s@.skip(i as int))
                == Some(span.container(s@, i as int)),
            None => container_at_start(s@.skip(i as int)) is None,
        },
{
    if !starts_with_at(s, &tags.open, i) {
        return None;
    }
    let after_open = i + tags.open.len();
    let after_spaces = skip_spaces(s, after_open);
    proof {
        lemma_skip_skip(s@, i as int, tags.open.len() as int);
        lemma_skip_skip(s@, after_open as int, after_spaces - after_open);
    }
    if after_spaces == after_open || !starts_with_at(s, &tags.class, after_spaces) {
        return None;
    }
    let value = after_spaces + tags.class.len();
    proof {
        lemma_skip_skip(s@, after_spaces as int, tags.class.len() as int);
    }
    container_body_at(s, value, tags)
}

/// Appends to `out` the alert for a block of the given type and content.
fn push_alert(out: &mut Vec<char>, kind: CustomBlockType, content: &Vec<char>)
    ensures
        final(out)@ == old(out)@ + alert_html(kind, content@),
{
    push_str(out, "<div class=\"alert ");
    push_str(out, kind.get_alert_class());
    push_str(out, "\" role=\"alert\"><strong>");
    push_str(out, kind.get_title());
    push_str(out, ":</strong> ");
    push_all(out, content);
    push_str(out, "</div>");
    assert(out@ =~= old(out)@ + alert_html(kind, content@));
}

/// Appends to `out` what stands in place of a container with the given
/// label and inner text.
fn push_container_html(out: &mut Vec<char>, label: &Vec<char>, inner: &Vec<char>)
    ensures
        final(out)@ == old(out)@ + container_html(label@, inner@),
{
    match kind_of(label) {
        Some(kind) => {
            push_alert(out, kind, inner);
        },
        None => {
            push_str(out, "<div class=\"alert alert-danger\" role=\"alert\"><strong>Error:</strong> ");
            push_str(out, "Failed to process custom block: ");
            push_str(out, "Unknown block type: ");
            push_all(out, label);
            push_str(out, "</div>");
            assert(out@ =~= old(out)@ + container_html(label@, inner@));
        },
    }
}

/// Generates the HTML for a custom block based on its type and content.
pub fn generate_custom_block_html(block_type: CustomBlockType, block_content: &str) -> (html:
    String)
    ensures
        html@ == alert_html(block_type, block_content@),
{
    let mut out: Vec<char> = Vec::new();
    push_alert(&mut out, block_type, &to_chars(block_content));
    assert(out@ =~= alert_html(block_type, block_content@));
    from_chars(&out)
}

/// Processes custom blocks in a document: each container labelled as a
/// note, warning, tip, info, important or caution block is replaced by the
/// alert of that type; a container with any other label is replaced by an
/// alert that shows the classification error.
pub fn process_custom_blocks(content: &str) -> (processed: String)
    ensures
        processed@ == rewritten_blocks(content@),
{
    let s = to_chars(content);
    let tags = Tags::new();
    let mut out: Vec<char> = Vec::new();
    let mut i: usize = 0;
    assert(s@.skip(0) =~= s@);
    while i < s.len()
        invariant
            i <= s.len(),
            tags.wf(),
            out@ + rewritten_blocks(s@.skip(i as int)) == rewritten_blocks(s@),
        decreases s.len() - i,
    {
        let ghost before = out@;
        let ghost rest = s@.skip(i as int);
        match container_at(&s, i, &tags) {
            Some(span) => {
                let label = copy_range(&s, span.label_start, span.label_end);
                let inner = copy_range(&s, span.inner_start, span.inner_end);
                push_container_html(&mut out, &label, &inner);
                proof {
                    lemma_container_len(rest);
                    lemma_skip_skip(s@, i as int, span.end - i);
                    assert(out@ + rewritten_blocks(s@.skip(span.end as int)) =~= before
                        + rewritten_blocks(rest));
                }
                i = span.end;
            },
            None => {
                out.push(s[i]);
                proof {
                    lemma_skip_skip(s@, i as int, 1);
                    assert(out@ + rewritten_blocks(rest.skip(1)) =~= before + rewritten_blocks(
                        rest,
                    ));
                }
                i += 1;
            },
        }
    }
    assert(out@ =~= rewritten_blocks(s@));
    from_chars(&out)
}

} // verus!

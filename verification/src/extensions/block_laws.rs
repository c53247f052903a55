//! What the rewriting of custom blocks makes of a single container.

use crate::error::{message_of, ErrorKind};
use crate::extensions::block_type::{
    classified, kind_named, lower, lowered, unknown_label_detail,
};
use crate::extensions::blocks::{
    alert_html, class_attr, container_at_start, container_body, container_close, container_html,
    container_open, error_alert_html, has_line_break, rewritten_blocks, space_run, tag_end,
    Container,
};
use crate::text::{find, lemma_find_is, lemma_find_leftmost, lemma_starts_with_at, starts_with};
use vstd::prelude::*;

verus! {

/// A container written out: the opening tag with the label in double quotes,
/// the inner text, and the closing tag.
pub open spec fn container_text(label: Seq<char>, inner: Seq<char>) -> Seq<char> {
    "<div class=\""@ + label + "\">"@ + inner + "</div>"@
}

/// Whether a text can stand as the label of a written container: it holds no
/// `>`, which would end the tag, and no line break.
pub open spec fn plain_label(label: Seq<char>) -> bool {
    !label.contains('>') && !has_line_break(label)
}

/// Whether a text can stand as the inner text of a written container: it
/// holds no closing tag and no line break.
pub open spec fn plain_inner(inner: Seq<char>) -> bool {
    find(inner, container_close()) is None && !has_line_break(inner)
}

/// Behind an inner text without a closing tag, the closing tag is found
/// where the inner text ends.
proof fn lemma_closing_tag_found(inner: Seq<char>)
    requires
        find(inner, container_close()) is None,
    ensures
        find(inner + container_close(), container_close()) == Some(inner.len() as int),
{
    reveal_strlit("</div>");
    let close = container_close();
    let t = inner + close;
    let n = inner.len() as int;
    assert(t.skip(n) =~= close);
    assert(close.subrange(0, close.len() as int) =~= close);
    lemma_find_leftmost(inner, close);
    assert forall|j: int| 0 <= j < n implies !starts_with(t.skip(j), close) by {
        if starts_with(t.skip(j), close) {
            lemma_starts_with_at(t, close, j);
            if j + close.len() <= n {
                assert forall|k: int| 0 <= k < close.len() implies inner[j + k] == close[k] by {
                    assert(t[j + k] == close[k]);
                }
                lemma_starts_with_at(inner, close, j);
                assert(false);
            } else {
                assert(t[j + (n - j)] == close[n - j]);
                assert(t[n] == close[0]);
                assert(false);
            }
        }
    }
    lemma_find_is(t, close, n);
}

/// A written container is read as one container, with its label and its
/// inner text, that spans the whole text.
proof fn lemma_container_read(label: Seq<char>, inner: Seq<char>)
    requires
        plain_label(label),
        plain_inner(inner),
    ensures
        container_at_start(container_text(label, inner)) == Some(
            Container { label, inner, len: container_text(label, inner).len() as int },
        ),
{
    reveal_strlit("<div class=\"");
    reveal_strlit("\">");
    reveal_strlit("</div>");
    reveal_strlit("<div");
    reveal_strlit("class=");
    reveal_strlit(">");
    let s = container_text(label, inner);
    let head = "<div class=\""@;
    let n = label.len() as int;
    let m = inner.len() as int;
    assert(s.len() == 12 + n + 2 + m + 6);
    assert forall|k: int| 0 <= k < 12 implies s[k] == head[k] by {}
    assert(s.subrange(0, 4) =~= container_open());
    let after_open = s.skip(4);
    assert(after_open[0] == ' ');
    assert(after_open.skip(1)[0] == 'c');
    assert(space_run(after_open.skip(1)) == 0);
    assert(space_run(after_open) == 1);
    let after_spaces = after_open.skip(1);
    assert(after_spaces.subrange(0, 6) =~= class_attr());
    let value = after_spaces.skip(6);
    assert(value[0] == '"');
    let text = value.skip(1);
    assert(text =~= label + "\">"@ + inner + "</div>"@);
    let g = n + 1;
    assert(text[n] == '"');
    assert(text[g] == '>');
    assert(text.skip(g).subrange(0, 1) =~= tag_end());
    assert forall|j: int| 0 <= j < g implies !starts_with(text.skip(j), tag_end()) by {
        if starts_with(text.skip(j), tag_end()) {
            lemma_starts_with_at(text, tag_end(), j);
            assert(text[j + 0] == tag_end()[0]);
            if j < n {
                assert(label[j] == '>');
                assert(label.contains('>'));
            }
        }
    }
    lemma_find_is(text, tag_end(), g);
    let body = text.skip(g + 1);
    assert(body =~= inner + container_close());
    lemma_closing_tag_found(inner);
    assert(text.take(n) =~= label);
    assert(body.take(m) =~= inner);
    assert(!has_line_break(text.take(g))) by {
        if has_line_break(text.take(g)) {
            let k = choose|k: int| 0 <= k < g && text.take(g)[k] == '\n';
            if k < n {
                assert(label[k] == '\n');
                assert(label.contains('\n'));
            }
        }
    }
    assert(container_body(value) == Some(Container { label, inner, len: 1 + g + 1 + m + 6 }));
}

/// Rewriting a single written container yields what stands in place of that
/// container, and nothing else.
pub proof fn lemma_container_rewritten(label: Seq<char>, inner: Seq<char>)
    requires
        plain_label(label),
        plain_inner(inner),
    ensures
        rewritten_blocks(container_text(label, inner)) == container_html(label, inner),
{
    reveal_strlit("<div class=\"");
    let s = container_text(label, inner);
    lemma_container_read(label, inner);
    assert(s.len() > 0);
    assert(s.skip(s.len() as int) =~= Seq::<char>::empty());
    assert(rewritten_blocks(Seq::<char>::empty()) == Seq::<char>::empty());
    assert(container_html(label, inner) + Seq::<char>::empty() =~= container_html(label, inner));
}

/// A label that names a block type holds letters only.
proof fn lemma_named_label_is_plain(label: Seq<char>)
    requires
        kind_named(label) is Some,
    ensures
        plain_label(label),
{
    reveal_strlit("note");
    reveal_strlit("warning");
    reveal_strlit("tip");
    reveal_strlit("info");
    reveal_strlit("important");
    reveal_strlit("caution");
    let l = lowered(label);
    assert forall|i: int| 0 <= i < label.len() implies 'a' <= lower(label[i]) && lower(label[i])
        <= 'z' by {
        assert(l[i] == lower(label[i]));
        let name = kind_named(label)->0.label();
        assert(l == name);
        assert(l[i] == name[i]);
    }
    if label.contains('>') {
        let i = choose|i: int| 0 <= i < label.len() && label[i] == '>';
        assert(lower(label[i]) == '>');
    }
    if label.contains('\n') {
        let i = choose|i: int| 0 <= i < label.len() && label[i] == '\n';
        assert(lower(label[i]) == '\n');
    }
}

/// Containers whose labels name a block type and differ in the case of
/// their letters alone are rewritten to the same alert: it does not matter
/// whether a note is labelled `NOTE`, `Note` or `note`. The inner text is
/// any text that holds no closing tag and no line break.
pub proof fn lemma_label_case_is_ignored(a: Seq<char>, b: Seq<char>, inner: Seq<char>)
    requires
        lowered(a) == lowered(b),
        kind_named(a) is Some,
        plain_inner(inner),
    ensures
        rewritten_blocks(container_text(a, inner)) == rewritten_blocks(container_text(b, inner)),
        rewritten_blocks(container_text(a, inner)) == alert_html(kind_named(a)->0, inner),
{
    lemma_named_label_is_plain(a);
    lemma_named_label_is_plain(b);
    lemma_container_rewritten(a, inner);
    lemma_container_rewritten(b, inner);
}

/// A container whose label names no block type is rewritten to an alert
/// that shows the message of the classification error, label included; the
/// rewrite itself does not fail.
pub proof fn lemma_unknown_label_is_shown(label: Seq<char>, inner: Seq<char>)
    requires
        kind_named(label) is None,
        plain_label(label),
        plain_inner(inner),
    ensures
        classified(label) matches Err(e) && e == (
            ErrorKind::CustomBlock,
            unknown_label_detail(label),
        ),
        rewritten_blocks(container_text(label, inner)) == error_alert_html(
            message_of((ErrorKind::CustomBlock, unknown_label_detail(label))),
        ),
{
    lemma_container_rewritten(label, inner);
}

} // verus!

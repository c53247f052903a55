//! The tag patterns of the rewriting stages, held against the same patterns
//! written as regular expressions, on many generated documents.

use mdx_gen::extensions::{process_custom_blocks, process_tables};
use mdx_gen::markdown::highlight_code_blocks;
use mdx_gen::apply_syntax_highlighting;
use regex::{Captures, Regex};

/// A small deterministic generator of pseudo-random numbers.
struct Lcg(u64);

impl Lcg {
    fn next(&mut self) -> u64 {
        self.0 = self.0.wrapping_mul(6364136223846793005).wrapping_add(1442695040888963407);
        self.0 >> 33
    }

    fn below(&mut self, n: usize) -> usize {
        (self.next() % n as u64) as usize
    }
}

fn document(rng: &mut Lcg, pieces: &[&str], max_pieces: usize) -> String {
    let n = rng.below(max_pieces + 1);
    let mut doc = String::new();
    for _ in 0..n {
        doc.push_str(pieces[rng.below(pieces.len())]);
    }
    doc
}

const BLOCK_PIECES: &[&str] = &[
    "<div", "<div ", "<div\t", "<div\n", "<div\u{2003}", "<div\u{a0}", " ", "class=", "class=\"",
    "class='", "\"", "'", ">", "\">", "'>", "</div>", "</div", "note", "NOTE", "Warning", "tip",
    "iNfO", "important", "caution", "unknown", "x", "\n", "é", "<", "/", "=", "<p>text</p>",
    "<div class=\"note\">a</div>", "<div class=\"x\">b</div>", "\u{212a}", "k",
];

fn blocks_by_regex(content: &str) -> String {
    let re = Regex::new(r#"<div\s+class=["']?(.*?)["']?>(.*?)</div>"#).unwrap();
    re.replace_all(content, |caps: &Captures| {
        let label = &caps[1];
        let kind = match label.to_lowercase().as_str() {
            "note" => Some(("alert-info", "Note")),
            "warning" => Some(("alert-warning", "Warning")),
            "tip" => Some(("alert-success", "Tip")),
            "info" => Some(("alert-primary", "Info")),
            "important" => Some(("alert-danger", "Important")),
            "caution" => Some(("alert-secondary", "Caution")),
            _ => None,
        };
        match kind {
            Some((class, title)) => format!(
                r#"<div class="alert {}" role="alert"><strong>{}:</strong> {}</div>"#,
                class, title, &caps[2]
            ),
            None => format!(
                r#"<div class="alert alert-danger" role="alert"><strong>Error:</strong> Failed to process custom block: Unknown block type: {}</div>"#,
                label
            ),
        }
    })
    .to_string()
}

#[test]
fn custom_blocks_agree_with_the_regular_expression() {
    let mut rng = Lcg(1);
    for _ in 0..4000 {
        let doc = document(&mut rng, BLOCK_PIECES, 14);
        assert_eq!(process_custom_blocks(&doc), blocks_by_regex(&doc), "document: {:?}", doc);
    }
}

#[test]
fn custom_blocks_agree_with_the_regular_expression_on_long_documents() {
    let mut rng = Lcg(2);
    for _ in 0..300 {
        let doc = document(&mut rng, BLOCK_PIECES, 120);
        assert_eq!(process_custom_blocks(&doc), blocks_by_regex(&doc), "document: {:?}", doc);
    }
}

const TABLE_PIECES: &[&str] = &[
    "<table>", "</table>", "<table", "<td", "<td>", "<td ", ">", "<", "align=\"center\"",
    "align=\"right\"", "align=\"left\"", "align=", "\"", " ", "\n", "x", "</td>", "<tr>", "</tr>",
    "<td align=\"center\">a</td>", "<td align=\"right\" align=\"center\">b</td>", "<th>", "é", "/",
];

fn tables_by_regex(html: &str) -> String {
    let html = Regex::new(r"<table>")
        .unwrap()
        .replace_all(html, r#"<div class="table-responsive"><table class="table">"#)
        .to_string();
    let html = Regex::new(r"</table>").unwrap().replace_all(&html, "</table></div>").to_string();
    Regex::new(r"<td([^>]*)>")
        .unwrap()
        .replace_all(&html, |caps: &Captures| {
            let attrs = &caps[1];
            if attrs.contains("align=\"center\"") {
                format!(r#"<td{} class="text-center">"#, attrs)
            } else if attrs.contains("align=\"right\"") {
                format!(r#"<td{} class="text-right">"#, attrs)
            } else {
                format!(r#"<td{} class="text-left">"#, attrs)
            }
        })
        .to_string()
}

#[test]
fn tables_agree_with_the_regular_expressions() {
    let mut rng = Lcg(3);
    for _ in 0..4000 {
        let doc = document(&mut rng, TABLE_PIECES, 14);
        assert_eq!(process_tables(&doc), tables_by_regex(&doc), "document: {:?}", doc);
    }
}

#[test]
fn tables_agree_with_the_regular_expressions_on_long_documents() {
    let mut rng = Lcg(4);
    for _ in 0..300 {
        let doc = document(&mut rng, TABLE_PIECES, 120);
        assert_eq!(process_tables(&doc), tables_by_regex(&doc), "document: {:?}", doc);
    }
}

const CODE_PIECES: &[&str] = &[
    "<pre><code class=\"language-", "<pre><code class=\"language-rust\">", "\">", "</code></pre>",
    "</code>", "</pre>", "<pre>", "rust", "txt", "nolang", "fn main() {}", "&lt;b&gt;", "&amp;",
    "&quot;", "\n", " ", "x", "\"", ">", "let a = 1;",
];

fn code_by_regex(html: &str) -> String {
    let re = Regex::new(r#"(?s)<pre><code class="language-(.*?)">(.*?)</code></pre>"#).unwrap();
    let mut out = String::new();
    let mut last_end = 0;
    for cap in re.captures_iter(html) {
        let whole = cap.get(0).unwrap();
        out.push_str(&html[last_end..whole.start()]);
        let lang = &cap[1];
        let code = html_escape::decode_html_entities(&cap[2]);
        let highlighted = apply_syntax_highlighting(&code, lang).unwrap();
        out.push_str(&format!("<pre><code class=\"language-{}\">{}</code></pre>", lang, highlighted));
        last_end = whole.end();
    }
    out.push_str(&html[last_end..]);
    out
}

#[test]
fn code_blocks_agree_with_the_regular_expression() {
    let mut rng = Lcg(5);
    let mut with_blocks = 0;
    for _ in 0..400 {
        let doc = document(&mut rng, CODE_PIECES, 10);
        let expected = code_by_regex(&doc);
        if expected != doc {
            with_blocks += 1;
        }
        assert_eq!(highlight_code_blocks(&doc).unwrap(), expected, "document: {:?}", doc);
    }
    assert!(with_blocks > 5);
}

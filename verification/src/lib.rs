//! Markdown to HTML conversion with post-processing stages for code-block
//! highlighting, responsive tables and admonition blocks.
//!
//! The entry point is [`process_markdown`]: it checks the options, has the
//! `comrak` parser convert the Markdown, and passes the HTML through the
//! stages that the options enable. Each stage can also be called on its own.
//!
//! The stages rewrite HTML by its tags. What each of them finds and what it
//! puts in its place is defined by spec functions over sequences of
//! characters, and the executable code is verified against them. Three
//! things are the work of outside crates and are taken on trust, each behind
//! one small function whose contract names the result: the conversion of
//! Markdown by `comrak`, the rendering of code by `syntect`, and the decoding
//! of character references by `html_escape`.

pub mod error;
pub mod extensions;
pub mod markdown;
pub mod text;

pub use error::{ErrorKind, MarkdownError};
pub use extensions::{apply_syntax_highlighting, ColumnAlignment, CustomBlockType};
pub use markdown::{process_markdown, ComrakOptions, MarkdownOptions};

//! The post-processing stages: syntax highlighting of code, responsive
//! tables, and custom blocks.

pub mod block_laws;
pub mod block_type;
pub mod blocks;
pub mod highlight;
pub mod tables;

pub use block_type::CustomBlockType;
pub use blocks::process_custom_blocks;
pub use highlight::apply_syntax_highlighting;
pub use tables::{process_tables, ColumnAlignment};

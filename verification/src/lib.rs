//! Extraction of the visible text content from possibly malformed HTML.
//!
//! An external HTML5 tree-construction engine tolerantly recovers malformed
//! markup and drives a sink through its callback interface. Two strategies
//! turn those callbacks into ordered text: materializing a document tree and
//! walking it depth-first (`tree`), or accumulating text payloads directly in
//! callback order without ever building a tree (`sink`). Wherever the engine
//! does not relocate text across other content, the two strategies read the
//! same text; when foster parenting moves text written after a table's cells
//! to just before the table, direct accumulation keeps the text in the order
//! it was written, and that is the behavior this library documents and tests.
//!
//! What is verified here: every callback's effect on the direct sink's
//! output buffer, the pre-order traversal of a materialized tree, and the
//! consistency of the two output shapes (the fragment sequence and the
//! single concatenated string).

pub mod node;
pub mod sink;
pub mod tree;

//! The node model shared by text-extracting sinks, and the output buffer.
//!
//! The tree-construction engine addresses previously created nodes through
//! opaque handles that it compares only by identity. A handle here is a
//! lightweight marker: a fresh numeric identity plus the node's kind, with
//! the qualified name kept for elements so that name queries can be answered;
//! no structure (children, parents) is stored in a handle. The output buffer
//! is an ordered sequence of text fragments, and `join_fragments` derives the
//! single-string output shape from it.

use vstd::prelude::*;
use vstd::string::StringExecFns;

verus! {

/// The kind of a node. Elements carry the qualified name, the one payload a
/// sink is ever queried about; text nodes carry the only payload that reaches
/// the output. A direct-accumulation sink never materializes text nodes: its
/// markers use the other four kinds only.
#[derive(Clone)]
pub enum NodeData {
    Document,
    Comment,
    ProcessingInstruction,
    Element { name: String },
    Text { content: String },
}

/// A handle to a node: an identity, compared only by value and never
/// structurally, plus the node's kind.
#[derive(Clone)]
pub struct Node {
    pub id: u64,
    pub data: NodeData,
}

/// A child presented to an append callback: either a previously created node
/// or a plain text payload. Only text payloads contribute to the output.
pub enum NodeOrText {
    AppendNode(Node),
    AppendText(String),
}

/// A document's quirks mode, as announced by the engine. A text-extracting
/// sink records nothing about it.
pub enum QuirksMode {
    Quirks,
    LimitedQuirks,
    NoQuirks,
}

/// Two handles denote the same node exactly when their identities agree.
pub open spec fn same_node_spec(x: Node, y: Node) -> bool {
    x.id == y.id
}

/// Whether a node kind is an element whose qualified name reads `name`.
pub open spec fn is_element_named(d: NodeData, name: Seq<char>) -> bool {
    match d {
        NodeData::Element { name: n } => n@ == name,
        _ => false,
    }
}

/// The output buffer after one append callback: a text payload is appended
/// as one new fragment; appending a node changes nothing, since that node's
/// own text arrives through its own append callbacks.
pub open spec fn buffer_after_append(buf: Seq<Seq<char>>, child: NodeOrText) -> Seq<Seq<char>> {
    match child {
        NodeOrText::AppendText(t) => buf.push(t@),
        NodeOrText::AppendNode(_) => buf,
    }
}

/// Join an output buffer's fragments into the single-string output shape:
/// their concatenation in order, with no reordering and no character loss.
pub fn join_fragments(fragments: &Vec<String>) -> (text: String)
    ensures
        text@ == fragments.deep_view().flatten(),
{
    let mut text = String::new();
    let n: usize = fragments.len();
    let mut i: usize = 0;
    proof {
        assert(fragments.deep_view().take(0) =~= Seq::<Seq<char>>::empty());
    }
    while i < n
        invariant
            i <= n,
            n == fragments.len(),
            text@ == fragments.deep_view().take(i as int).flatten(),
        decreases n - i,
    {
        text.append(fragments[i].as_str());
        proof {
            let frags = fragments.deep_view();
            assert(frags.take(i as int).push(frags[i as int]) =~= frags.take(i + 1));
            frags.take(i as int).lemma_flatten_push(frags[i as int]);
        }
        i = i + 1;
    }
    proof {
        assert(fragments.deep_view().take(n as int) =~= fragments.deep_view());
    }
    text
}

} // verus!

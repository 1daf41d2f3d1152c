//! The direct-accumulation sink.
//!
//! `TextOnly` satisfies the whole callback contract of the tree-construction
//! engine without materializing any structure: the only callbacks with an
//! effect on the output are the two append operations, and only when their
//! child is a text payload. The engine presents text payloads in the order
//! they stand in the source, so the buffer of fragments, read left to right,
//! is the document's text as written, whatever recovery the engine performed
//! around it.

use vstd::prelude::*;
use crate::node::{buffer_after_append, is_element_named, same_node_spec, Node, NodeData,
    NodeOrText, QuirksMode};

verus! {

/// A single-use sink that accumulates text payloads in callback order.
///
/// Its abstract state (the view) is the ordered sequence of text fragments
/// received so far; `id_counter` counts the handles issued, which makes every
/// issued handle's identity unique.
pub struct TextOnly {
    fragments: Vec<String>,
    next_id: u64,
}

impl View for TextOnly {
    type V = Seq<Seq<char>>;

    closed spec fn view(&self) -> Seq<Seq<char>> {
        self.fragments.deep_view()
    }
}

impl Default for TextOnly {
    fn default() -> (sink: TextOnly)
        ensures
            sink@ == Seq::<Seq<char>>::empty(),
            sink.id_counter() == 0,
    {
        TextOnly::new()
    }
}

impl TextOnly {
    /// How many handles this sink has issued so far; the identity of every
    /// issued handle is below this bound, so a fresh handle is distinct from
    /// every earlier one.
    pub closed spec fn id_counter(&self) -> u64 {
        self.next_id
    }

    /// A fresh sink: no text received, no handles issued.
    pub fn new() -> (sink: TextOnly)
        ensures
            sink@ == Seq::<Seq<char>>::empty(),
            sink.id_counter() == 0,
    {
        let sink = TextOnly { fragments: Vec::new(), next_id: 0 };
        proof {
            assert(sink.fragments.deep_view() =~= Seq::<Seq<char>>::empty());
        }
        sink
    }

    /// Whether another handle identity can still be issued. Only exhaustion
    /// of the 64-bit identity space — impossible in practice — makes this
    /// false.
    pub fn can_create(&self) -> (r: bool)
        ensures
            r == (self.id_counter() < u64::MAX),
    {
        self.next_id < u64::MAX
    }

    /// Issue a handle with a fresh identity carrying `data`. The output
    /// buffer is untouched.
    fn make_handle(&mut self, data: NodeData) -> (h: Node)
        requires
            old(self).id_counter() < u64::MAX,
        ensures
            final(self)@ == old(self)@,
            final(self).id_counter() == old(self).id_counter() + 1,
            h.id == old(self).id_counter(),
            h.data == data,
    {
        let id: u64 = self.next_id;
        self.next_id = self.next_id + 1;
        Node { id, data }
    }

    /// Handle to a fresh `Document` node.
    pub fn get_document(&mut self) -> (h: Node)
        requires
            old(self).id_counter() < u64::MAX,
        ensures
            final(self)@ == old(self)@,
            final(self).id_counter() == old(self).id_counter() + 1,
            h.id == old(self).id_counter(),
            h.data is Document,
    {
        self.make_handle(NodeData::Document)
    }

    /// Handle to a fresh element marker carrying its qualified name.
    pub fn create_element(&mut self, name: String) -> (h: Node)
        requires
            old(self).id_counter() < u64::MAX,
        ensures
            final(self)@ == old(self)@,
            final(self).id_counter() == old(self).id_counter() + 1,
            h.id == old(self).id_counter(),
            is_element_named(h.data, name@),
    {
        self.make_handle(NodeData::Element { name })
    }

    /// Handle to a fresh comment marker. The comment's text never reaches
    /// the output.
    pub fn create_comment(&mut self) -> (h: Node)
        requires
            old(self).id_counter() < u64::MAX,
        ensures
            final(self)@ == old(self)@,
            final(self).id_counter() == old(self).id_counter() + 1,
            h.id == old(self).id_counter(),
            h.data is Comment,
    {
        self.make_handle(NodeData::Comment)
    }

    /// Handle to a fresh processing-instruction marker.
    pub fn create_pi(&mut self) -> (h: Node)
        requires
            old(self).id_counter() < u64::MAX,
        ensures
            final(self)@ == old(self)@,
            final(self).id_counter() == old(self).id_counter() + 1,
            h.id == old(self).id_counter(),
            h.data is ProcessingInstruction,
    {
        self.make_handle(NodeData::ProcessingInstruction)
    }

    /// Handle under which a template element's contents are built. Text
    /// appended there is accumulated like any other text, so template
    /// contents participate in the output at the position reached — the
    /// policy this crate adopts for templates. The marker is a fresh
    /// document node, as for `get_document`.
    pub fn get_template_contents(&mut self, _target: &Node) -> (h: Node)
        requires
            old(self).id_counter() < u64::MAX,
        ensures
            final(self)@ == old(self)@,
            final(self).id_counter() == old(self).id_counter() + 1,
            h.id == old(self).id_counter(),
            h.data is Document,
    {
        self.make_handle(NodeData::Document)
    }

    /// The qualified name of an element handle. The engine promises never to
    /// ask for the name of a non-element node.
    pub fn elem_name<'a>(&self, target: &'a Node) -> (name: &'a String)
        requires
            target.data is Element,
        ensures
            is_element_named(target.data, name@),
    {
        match &target.data {
            NodeData::Element { name } => name,
            _ => vstd::pervasive::unreached(),
        }
    }

    /// Append a child under `parent`: a text payload becomes one new fragment
    /// at the end of the buffer; a node child changes nothing. The parent is
    /// irrelevant because the engine already presents text in final document
    /// order.
    pub fn append(&mut self, _parent: &Node, child: NodeOrText)
        ensures
            final(self)@ == buffer_after_append(old(self)@, child),
            final(self).id_counter() == old(self).id_counter(),
    {
        match child {
            NodeOrText::AppendText(t) => {
                self.fragments.push(t);
                proof {
                    assert(self.fragments.deep_view() =~= buffer_after_append(
                        old(self).fragments.deep_view(),
                        child,
                    ));
                }
            },
            NodeOrText::AppendNode(_) => {},
        }
    }

    /// Append used when the engine foster-parents misnested content (text
    /// placed directly inside a table is relocated before it). Text is
    /// accumulated exactly as in `append`, so relocated text stays in the
    /// order it was written in the source.
    pub fn append_based_on_parent_node(
        &mut self,
        _element: &Node,
        _prev_element: &Node,
        child: NodeOrText,
    )
        ensures
            final(self)@ == buffer_after_append(old(self)@, child),
            final(self).id_counter() == old(self).id_counter(),
    {
        self.append(_element, child)
    }

    /// A doctype carries no visible text; accepted and ignored.
    pub fn append_doctype_to_document(&mut self)
        ensures
            *final(self) == *old(self),
    {
    }

    /// Identity comparison of handles, never structural.
    pub fn same_node(&self, x: &Node, y: &Node) -> (r: bool)
        ensures
            r == same_node_spec(*x, *y),
    {
        x.id == y.id
    }

    /// Quirks mode does not affect which text is delivered; accepted and
    /// ignored.
    pub fn set_quirks_mode(&mut self, _mode: QuirksMode)
        ensures
            *final(self) == *old(self),
    {
    }

    /// Attributes never reach the output; accepted and ignored.
    pub fn add_attrs_if_missing(&mut self, _target: &Node)
        ensures
            *final(self) == *old(self),
    {
    }

    /// Detaching a node is structure-only; this sink keeps no structure.
    pub fn remove_from_parent(&mut self, _target: &Node)
        ensures
            *final(self) == *old(self),
    {
    }

    /// Reparenting is structure-only; the relocated children's text was (or
    /// will be) delivered through append callbacks in document order.
    pub fn reparent_children(&mut self, _node: &Node, _new_parent: &Node)
        ensures
            *final(self) == *old(self),
    {
    }

    /// Parse-error notifications are intentionally inert: malformed markup
    /// is recovered by the engine, never escalated by the sink.
    pub fn parse_error(&self, _msg: &str) {
    }

    /// Consume the sink and return the sequence output shape: one fragment
    /// per text payload received, in callback order.
    pub fn finish_fragments(self) -> (fragments: Vec<String>)
        ensures
            fragments.deep_view() == self@,
    {
        self.fragments
    }

    /// Consume the sink and return the single-string output shape: the
    /// concatenation of all fragments in callback order.
    pub fn finish(self) -> (text: String)
        ensures
            text@ == self@.flatten(),
    {
        crate::node::join_fragments(&self.fragments)
    }
}

/// The two output shapes are consistent: for one and the same sink state,
/// concatenating the sequence-form result equals the single-string-form
/// result, with no reordering and no character loss.
pub proof fn lemma_output_shapes_agree(sink: TextOnly, fragments: Vec<String>, text: String)
    requires
        fragments.deep_view() == sink@,
        text@ == sink@.flatten(),
    ensures
        text@ == fragments.deep_view().flatten(),
{
}

} // verus!

//! The materialized document tree and its pre-order traversal.
//!
//! The tree-materializing strategy builds an owned tree of nodes and walks it
//! depth-first once construction is over, visiting a node before its
//! children, left to right in append order. Every text node contributes its
//! content as one fragment; nothing else contributes. Ownership makes the
//! tree acyclic by construction: each node owns its ordered children.

use vstd::prelude::*;
use crate::node::NodeData;

verus! {

/// A node of a materialized document tree: an identity (compared only by
/// value), the node's kind, and the owned, ordered children. Text nodes are
/// always leaves.
pub struct TreeNode {
    pub id: u64,
    pub data: NodeData,
    pub children: Vec<TreeNode>,
}

/// The text fragments of the subtree rooted at `n`, in pre-order: a text
/// node contributes its content as the one fragment of its subtree; any
/// other node contributes its children's fragments, left to right.
pub open spec fn texts_of(n: TreeNode) -> Seq<Seq<char>>
    decreases n,
{
    match n.data {
        NodeData::Text { content } => seq![content@],
        _ => texts_of_forest(n.children@),
    }
}

/// The fragments of a sequence of sibling subtrees, left to right.
pub open spec fn texts_of_forest(s: Seq<TreeNode>) -> Seq<Seq<char>>
    decreases s,
{
    if s.len() == 0 {
        Seq::empty()
    } else {
        texts_of(s[0]) + texts_of_forest(s.drop_first())
    }
}

/// Extending a forest by one subtree on the right appends that subtree's
/// fragments at the end.
pub proof fn lemma_texts_of_forest_push(s: Seq<TreeNode>, x: TreeNode)
    ensures
        texts_of_forest(s.push(x)) == texts_of_forest(s) + texts_of(x),
    decreases s,
{
    if s.len() == 0 {
        assert(s.push(x).drop_first() =~= Seq::<TreeNode>::empty());
        assert(s.push(x)[0] == x);
        assert(texts_of_forest(Seq::<TreeNode>::empty()) == Seq::<Seq<char>>::empty());
        assert(texts_of_forest(s.push(x)) =~= texts_of(x));
        assert(texts_of_forest(s) + texts_of(x) =~= texts_of(x));
    } else {
        assert(s.push(x).drop_first() =~= s.drop_first().push(x));
        assert(s.push(x)[0] == s[0]);
        lemma_texts_of_forest_push(s.drop_first(), x);
        assert(texts_of_forest(s.push(x)) =~= texts_of_forest(s) + texts_of(x));
    }
}

/// Depth-first collection of text fragments: push one fragment per text node
/// reached from `n`, in pre-order, onto the end of `out`.
pub fn collect_texts(n: &TreeNode, out: &mut Vec<String>)
    ensures
        final(out).deep_view() == old(out).deep_view() + texts_of(*n),
    decreases *n,
{
    match &n.data {
        NodeData::Text { content } => {
            out.push(content.clone());
            proof {
                assert(out.deep_view() =~= old(out).deep_view() + texts_of(*n));
            }
        },
        _ => {
            let n_children: usize = n.children.len();
            let mut i: usize = 0;
            proof {
                assert(n.children@.take(0) =~= Seq::<TreeNode>::empty());
                assert(out.deep_view() =~= old(out).deep_view() + texts_of_forest(
                    n.children@.take(0),
                ));
            }
            while i < n_children
                invariant
                    i <= n_children,
                    n_children == n.children.len(),
                    !(n.data is Text),
                    out.deep_view() == old(out).deep_view() + texts_of_forest(
                        n.children@.take(i as int),
                    ),
                decreases n_children - i,
            {
                proof {
                    assert(decreases_to!(*n => n.children));
                    assert(decreases_to!(n.children => n.children@[i as int]));
                }
                collect_texts(&n.children[i], out);
                proof {
                    let pre = n.children@.take(i as int);
                    assert(pre.push(n.children@[i as int]) =~= n.children@.take(i + 1));
                    lemma_texts_of_forest_push(pre, n.children@[i as int]);
                    assert(out.deep_view() =~= old(out).deep_view() + texts_of_forest(
                        n.children@.take(i + 1),
                    ));
                }
                i = i + 1;
            }
            proof {
                assert(n.children@.take(n_children as int) =~= n.children@);
            }
        },
    }
}

/// The sequence output shape of the tree-walking strategy: one fragment per
/// text node, in pre-order.
pub fn pre_order_texts(root: &TreeNode) -> (fragments: Vec<String>)
    ensures
        fragments.deep_view() == texts_of(*root),
{
    let mut out: Vec<String> = Vec::new();
    proof {
        assert(out.deep_view() =~= Seq::<Seq<char>>::empty());
    }
    collect_texts(root, &mut out);
    proof {
        assert(out.deep_view() =~= texts_of(*root));
    }
    out
}

/// The single-string output shape of the tree-walking strategy: the
/// concatenation of the pre-order fragments.
pub fn pre_order_text(root: &TreeNode) -> (text: String)
    ensures
        text@ == texts_of(*root).flatten(),
{
    let fragments = pre_order_texts(root);
    crate::node::join_fragments(&fragments)
}

} // verus!

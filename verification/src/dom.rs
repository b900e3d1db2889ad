//! The shared document and id-correlated finalization.
//!
//! The document is modeled as a sequence of nodes: placeholder elements
//! stamped with their correlation id, and rendered markup that is opaque to
//! this library. A finalizer locates the placeholder that carries its
//! output's id and element kind — never a position — and replaces it with the
//! output's rendered markup. Finalization is proved position-independent:
//! distinct ids touch distinct nodes, and running two finalizers in either
//! order yields the same document.

use vstd::prelude::*;
use vstd::string::*;
use crate::digits::{dec_seq, u64_to_dec};
use crate::errors::AssetError;
use crate::output::TrunkAssetPipelineOutput;

verus! {

/// Which of the two placeholder element kinds a selector addresses.
#[derive(Clone, Copy, Debug, PartialEq, Eq, Structural)]
pub enum ElementKind {
    /// A link-like placeholder element.
    Link,
    /// A script-like placeholder element.
    Script,
}

/// One node of the document.
pub enum DocNode {
    /// A link-like placeholder stamped with its correlation id.
    LinkPlaceholder { id: usize },
    /// A script-like placeholder stamped with its correlation id.
    ScriptPlaceholder { id: usize },
    /// Markup this library does not interpret.
    Rendered { html: String },
}

/// The mathematical form of one node.
pub enum NodeView {
    LinkPlaceholder { id: usize },
    ScriptPlaceholder { id: usize },
    Rendered { html: Seq<char> },
}

impl View for DocNode {
    type V = NodeView;

    open spec fn view(&self) -> NodeView {
        match self {
            DocNode::LinkPlaceholder { id } => NodeView::LinkPlaceholder { id: *id },
            DocNode::ScriptPlaceholder { id } => NodeView::ScriptPlaceholder { id: *id },
            DocNode::Rendered { html } => NodeView::Rendered { html: html@ },
        }
    }
}

/// The shared document a build pass mutates.
pub struct Document {
    pub nodes: Vec<DocNode>,
}

impl View for Document {
    type V = Seq<NodeView>;

    open spec fn view(&self) -> Seq<NodeView> {
        self.nodes@.map_values(|n: DocNode| n@)
    }
}

/// Whether one node is the placeholder that the correlation selector for
/// `kind` and `id` addresses.
pub open spec fn node_matches(n: NodeView, kind: ElementKind, id: usize) -> bool {
    match n {
        NodeView::LinkPlaceholder { id: i } => kind == ElementKind::Link && i == id,
        NodeView::ScriptPlaceholder { id: i } => kind == ElementKind::Script && i == id,
        NodeView::Rendered { .. } => false,
    }
}

/// The position of the first placeholder matching `kind` and `id`.
pub open spec fn find_placeholder(nodes: Seq<NodeView>, kind: ElementKind, id: usize) -> Option<
    int,
>
    decreases nodes.len(),
{
    if nodes.len() == 0 {
        None
    } else if node_matches(nodes[0], kind, id) {
        Some(0)
    } else {
        match find_placeholder(nodes.drop_first(), kind, id) {
            None => None,
            Some(i) => Some(i + 1),
        }
    }
}

/// What finalizing one output does to the node sequence: the first matching
/// placeholder is replaced by the rendered markup; without a match the
/// document is untouched.
pub open spec fn finalize_node_spec(
    nodes: Seq<NodeView>,
    kind: ElementKind,
    id: usize,
    html: Seq<char>,
) -> Seq<NodeView> {
    match find_placeholder(nodes, kind, id) {
        None => nodes,
        Some(i) => nodes.update(i, NodeView::Rendered { html }),
    }
}

/// `find_placeholder` returns the first matching position, and `None` only
/// when nothing matches.
pub proof fn lemma_find_placeholder_spec(nodes: Seq<NodeView>, kind: ElementKind, id: usize)
    ensures
        match find_placeholder(nodes, kind, id) {
            Some(i) => 0 <= i < nodes.len() && node_matches(nodes[i], kind, id) && (forall|j: int|
                0 <= j < i ==> !node_matches(nodes[j], kind, id)),
            None => forall|j: int| 0 <= j < nodes.len() ==> !node_matches(nodes[j], kind, id),
        },
    decreases nodes.len(),
{
    if nodes.len() > 0 && !node_matches(nodes[0], kind, id) {
        lemma_find_placeholder_spec(nodes.drop_first(), kind, id);
        assert(forall|j: int|
            1 <= j < nodes.len() ==> nodes[j] == nodes.drop_first()[j - 1]);
    }
}

/// Two sequences whose nodes match `kind` and `id` at the same positions are
/// searched alike.
proof fn lemma_find_placeholder_congruence(
    a: Seq<NodeView>,
    b: Seq<NodeView>,
    kind: ElementKind,
    id: usize,
)
    requires
        a.len() == b.len(),
        forall|j: int|
            0 <= j < a.len() ==> (node_matches(a[j], kind, id) <==> node_matches(b[j], kind, id)),
    ensures
        find_placeholder(a, kind, id) == find_placeholder(b, kind, id),
    decreases a.len(),
{
    if a.len() > 0 {
        assert(node_matches(a[0], kind, id) <==> node_matches(b[0], kind, id));
        if !node_matches(a[0], kind, id) {
            assert(forall|j: int| 0 <= j < a.drop_first().len() ==> a.drop_first()[j] == a[j + 1]);
            assert(forall|j: int| 0 <= j < b.drop_first().len() ==> b.drop_first()[j] == b[j + 1]);
            lemma_find_placeholder_congruence(a.drop_first(), b.drop_first(), kind, id);
        }
    }
}

/// A placeholder matching one id never matches another id, whatever the two
/// element kinds.
proof fn lemma_matches_distinct_ids(n: NodeView, k1: ElementKind, id1: usize, k2: ElementKind, id2: usize)
    requires
        id1 != id2,
        node_matches(n, k1, id1),
    ensures
        !node_matches(n, k2, id2),
{
}

/// Finalizing one id never removes or alters a node that its selector does
/// not address: every other position of the document is left as it was, and
/// the document keeps its length.
pub proof fn lemma_finalize_preserves_other_nodes(
    nodes: Seq<NodeView>,
    kind: ElementKind,
    id: usize,
    html: Seq<char>,
    j: int,
)
    requires
        0 <= j < nodes.len(),
        !node_matches(nodes[j], kind, id),
    ensures
        finalize_node_spec(nodes, kind, id, html).len() == nodes.len(),
        finalize_node_spec(nodes, kind, id, html)[j] == nodes[j],
{
    lemma_find_placeholder_spec(nodes, kind, id);
}

/// Finalization is position-independent: two outputs with distinct ids may
/// run in either order and leave the identical document.
pub proof fn lemma_finalize_order_independent(
    nodes: Seq<NodeView>,
    k1: ElementKind,
    id1: usize,
    h1: Seq<char>,
    k2: ElementKind,
    id2: usize,
    h2: Seq<char>,
)
    requires
        id1 != id2,
    ensures
        finalize_node_spec(finalize_node_spec(nodes, k1, id1, h1), k2, id2, h2)
            == finalize_node_spec(finalize_node_spec(nodes, k2, id2, h2), k1, id1, h1),
{
    lemma_find_placeholder_spec(nodes, k1, id1);
    lemma_find_placeholder_spec(nodes, k2, id2);
    let f1 = find_placeholder(nodes, k1, id1);
    let f2 = find_placeholder(nodes, k2, id2);
    match (f1, f2) {
        (None, None) => {
            lemma_find_placeholder_congruence(nodes, nodes, k2, id2);
        },
        (Some(i1), None) => {
            let step = nodes.update(i1, NodeView::Rendered { html: h1 });
            assert(forall|j: int|
                0 <= j < nodes.len() ==> (node_matches(step[j], k2, id2) <==> node_matches(
                    nodes[j],
                    k2,
                    id2,
                )));
            lemma_find_placeholder_congruence(step, nodes, k2, id2);
        },
        (None, Some(i2)) => {
            let step = nodes.update(i2, NodeView::Rendered { html: h2 });
            assert(forall|j: int|
                0 <= j < nodes.len() ==> (node_matches(step[j], k1, id1) <==> node_matches(
                    nodes[j],
                    k1,
                    id1,
                )));
            lemma_find_placeholder_congruence(step, nodes, k1, id1);
        },
        (Some(i1), Some(i2)) => {
            lemma_matches_distinct_ids(nodes[i1], k1, id1, k2, id2);
            assert(i1 != i2);
            let step1 = nodes.update(i1, NodeView::Rendered { html: h1 });
            let step2 = nodes.update(i2, NodeView::Rendered { html: h2 });
            assert(forall|j: int|
                0 <= j < nodes.len() ==> (node_matches(step1[j], k2, id2) <==> node_matches(
                    nodes[j],
                    k2,
                    id2,
                )));
            assert(forall|j: int|
                0 <= j < nodes.len() ==> (node_matches(step2[j], k1, id1) <==> node_matches(
                    nodes[j],
                    k1,
                    id1,
                )));
            lemma_find_placeholder_congruence(step1, nodes, k2, id2);
            lemma_find_placeholder_congruence(step2, nodes, k1, id1);
            assert(step1.update(i2, NodeView::Rendered { html: h2 }) =~= step2.update(
                i1,
                NodeView::Rendered { html: h1 },
            ));
        },
    }
}

fn node_matches_exec(n: &DocNode, kind: ElementKind, id: usize) -> (r: bool)
    ensures
        r == node_matches(n@, kind, id),
{
    match n {
        DocNode::LinkPlaceholder { id: i } => kind == ElementKind::Link && *i == id,
        DocNode::ScriptPlaceholder { id: i } => kind == ElementKind::Script && *i == id,
        DocNode::Rendered { .. } => false,
    }
}

impl TrunkAssetPipelineOutput {
    /// The element kind of the placeholder this output addresses: script
    /// outputs came from script-like elements, every other kind from
    /// link-like elements.
    pub open spec fn target_kind(self) -> ElementKind {
        match self {
            TrunkAssetPipelineOutput::Js(_) => ElementKind::Script,
            _ => ElementKind::Link,
        }
    }

    /// The element kind of the placeholder this output addresses.
    pub fn element_kind(&self) -> (r: ElementKind)
        ensures
            r == self.target_kind(),
    {
        match self {
            TrunkAssetPipelineOutput::Js(_) => ElementKind::Script,
            _ => ElementKind::Link,
        }
    }

    /// Replace this output's placeholder — located solely through its
    /// correlation id and element kind — with the rendered markup. Fails,
    /// leaving the document untouched, when no placeholder carries the id.
    pub fn finalize(self, doc: &mut Document) -> (r: Result<(), AssetError>)
        ensures
            match find_placeholder(old(doc)@, self.target_kind(), self.spec_id()) {
                Some(i) => r matches Ok(_) && final(doc)@ == old(doc)@.update(
                    i,
                    NodeView::Rendered { html: self.render_spec() },
                ),
                None => (r matches Err(AssetError::MissingPlaceholder { id }) && id
                    == self.spec_id()) && final(doc)@ == old(doc)@,
            },
    {
        let kind = self.element_kind();
        let id = self.id();
        let n = doc.nodes.len();
        let mut i: usize = 0;
        while i < n
            invariant
                n == doc.nodes.len(),
                doc@ == old(doc)@,
                kind == self.target_kind(),
                id == self.spec_id(),
                0 <= i <= n,
                forall|j: int| 0 <= j < i ==> !node_matches(doc@[j], kind, id),
            decreases n - i,
        {
            proof {
                assert(doc@[i as int] == doc.nodes@[i as int]@);
            }
            if node_matches_exec(&doc.nodes[i], kind, id) {
                proof {
                    lemma_find_placeholder_spec(doc@, kind, id);
                }
                let html = self.render_html();
                let ghost pre = doc@;
                doc.nodes.set(i, DocNode::Rendered { html });
                proof {
                    assert(doc@ =~= pre.update(
                        i as int,
                        NodeView::Rendered { html: self.render_spec() },
                    ));
                }
                return Ok(());
            }
            i = i + 1;
        }
        proof {
            lemma_find_placeholder_spec(doc@, kind, id);
        }
        Err(AssetError::MissingPlaceholder { id })
    }
}

/// The serialized text of one node: a placeholder writes itself with its
/// correlation attribute, rendered markup writes itself unchanged.
pub open spec fn node_text(n: NodeView) -> Seq<char> {
    match n {
        NodeView::LinkPlaceholder { id } => "<link data-trunk-id=\""@ + dec_seq(id as nat)
            + "\"/>"@,
        NodeView::ScriptPlaceholder { id } => "<script data-trunk-id=\""@ + dec_seq(id as nat)
            + "\"></script>"@,
        NodeView::Rendered { html } => html,
    }
}

/// The serialized text of a node sequence, in document order.
pub open spec fn doc_text(nodes: Seq<NodeView>) -> Seq<char>
    decreases nodes.len(),
{
    if nodes.len() == 0 {
        Seq::empty()
    } else {
        node_text(nodes[0]) + doc_text(nodes.drop_first())
    }
}

proof fn lemma_doc_text_push(nodes: Seq<NodeView>, n: NodeView)
    ensures
        doc_text(nodes.push(n)) == doc_text(nodes) + node_text(n),
    decreases nodes.len(),
{
    if nodes.len() == 0 {
        assert(nodes.push(n)[0] == n);
        assert(nodes.push(n).drop_first() =~= Seq::<NodeView>::empty());
        assert(doc_text(nodes.push(n)) == node_text(n) + doc_text(Seq::<NodeView>::empty()));
        assert(node_text(n) + Seq::<char>::empty() =~= node_text(n));
        assert(doc_text(nodes) + node_text(n) =~= node_text(n));
    } else {
        assert(nodes.push(n)[0] == nodes[0]);
        assert(nodes.push(n).drop_first() =~= nodes.drop_first().push(n));
        lemma_doc_text_push(nodes.drop_first(), n);
        assert(doc_text(nodes.push(n)) =~= doc_text(nodes) + node_text(n));
    }
}

fn render_node(n: &DocNode) -> (r: String)
    ensures
        r@ == node_text(n@),
{
    match n {
        DocNode::LinkPlaceholder { id } => {
            let mut s = String::from_str("<link data-trunk-id=\"");
            let digits = u64_to_dec(*id as u64);
            s.append(digits.as_str());
            s.append("\"/>");
            s
        },
        DocNode::ScriptPlaceholder { id } => {
            let mut s = String::from_str("<script data-trunk-id=\"");
            let digits = u64_to_dec(*id as u64);
            s.append(digits.as_str());
            s.append("\"></script>");
            s
        },
        DocNode::Rendered { html } => html.clone(),
    }
}

impl Document {
    /// Serialize the document, node after node in document order.
    pub fn to_html(&self) -> (r: String)
        ensures
            r@ == doc_text(self@),
    {
        let mut s = String::new();
        let n = self.nodes.len();
        let mut i: usize = 0;
        while i < n
            invariant
                n == self.nodes.len(),
                0 <= i <= n,
                s@ == doc_text(self@.take(i as int)),
            decreases n - i,
        {
            proof {
                assert(self@[i as int] == self.nodes@[i as int]@);
                assert(self@.take(i as int + 1) =~= self@.take(i as int).push(self@[i as int]));
                lemma_doc_text_push(self@.take(i as int), self@[i as int]);
            }
            let piece = render_node(&self.nodes[i]);
            s.append(piece.as_str());
            i = i + 1;
        }
        proof {
            assert(self@.take(n as int) =~= self@);
        }
        s
    }
}

} // verus!

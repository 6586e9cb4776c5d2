//! Workspace document operations.
//!
//! Each operation takes the document the caller loaded (or the outcome of
//! loading it) and returns the document to be written back; the caller
//! owns the file itself. A missing file yields an empty document rather
//! than an error.

use vstd::prelude::*;
use vstd::seq_lib::*;
use crate::error::MosaicError;
use crate::workspace::{WorkspaceData, WorkspaceNode, WorkspaceEdge, is_empty_document, node_kept_pred, edge_kept_pred, edge_not_named_pred};
use crate::strutil::contains_str;

verus! {

/// The node-survival predicate for a batch removal list.
pub open spec fn batch_node_pred(ids: Seq<Seq<char>>) -> spec_fn(WorkspaceNode) -> bool {
    |n: WorkspaceNode| !ids.contains(n.id@)
}

/// The edge-survival predicate for a batch update: the edge is not on the
/// removal list, and neither endpoint is a removed node.
pub open spec fn batch_edge_pred(node_ids: Seq<Seq<char>>, edge_ids: Seq<Seq<char>>) -> spec_fn(
    WorkspaceEdge,
) -> bool {
    |e: WorkspaceEdge|
        !node_ids.contains(e.source@) && !node_ids.contains(e.target@) && !edge_ids.contains(e.id@)
}

fn retain_batch_nodes(v: Vec<WorkspaceNode>, ids: &Vec<String>) -> (r: Vec<WorkspaceNode>)
    ensures
        r@ == v@.filter(batch_node_pred(ids.deep_view())),
{
    let ghost p = batch_node_pred(ids.deep_view());
    let mut rest = v;
    let mut r: Vec<WorkspaceNode> = Vec::new();
    let ghost orig = rest@;
    let ghost mut done: Seq<WorkspaceNode> = Seq::empty();
    proof {
        assert(done.filter(p) =~= Seq::<WorkspaceNode>::empty()) by {
            reveal(Seq::filter);
        }
    }
    while rest.len() > 0
        invariant
            orig =~= done + rest@,
            r@ =~= done.filter(p),
            p == batch_node_pred(ids.deep_view()),
        decreases rest@.len(),
    {
        let x = rest.remove(0);
        let keep = !contains_str(ids, x.id.as_str());
        proof {
            let done0 = done;
            done = done.push(x);
            done0.lemma_filter_push(x, p);
            assert(p(x) == keep);
        }
        if keep {
            r.push(x);
        }
        proof {
            assert(orig =~= done + rest@);
        }
    }
    proof {
        assert(orig =~= done);
    }
    r
}

fn retain_batch_edges(v: Vec<WorkspaceEdge>, node_ids: &Vec<String>, edge_ids: &Vec<String>) -> (r:
    Vec<WorkspaceEdge>)
    ensures
        r@ == v@.filter(batch_edge_pred(node_ids.deep_view(), edge_ids.deep_view())),
{
    let ghost p = batch_edge_pred(node_ids.deep_view(), edge_ids.deep_view());
    let mut rest = v;
    let mut r: Vec<WorkspaceEdge> = Vec::new();
    let ghost orig = rest@;
    let ghost mut done: Seq<WorkspaceEdge> = Seq::empty();
    proof {
        assert(done.filter(p) =~= Seq::<WorkspaceEdge>::empty()) by {
            reveal(Seq::filter);
        }
    }
    while rest.len() > 0
        invariant
            orig =~= done + rest@,
            r@ =~= done.filter(p),
            p == batch_edge_pred(node_ids.deep_view(), edge_ids.deep_view()),
        decreases rest@.len(),
    {
        let x = rest.remove(0);
        let keep = !contains_str(node_ids, x.source.as_str()) && !contains_str(
            node_ids,
            x.target.as_str(),
        ) && !contains_str(edge_ids, x.id.as_str());
        proof {
            let done0 = done;
            done = done.push(x);
            done0.lemma_filter_push(x, p);
            assert(p(x) == keep);
        }
        if keep {
            r.push(x);
        }
        proof {
            assert(orig =~= done + rest@);
        }
    }
    proof {
        assert(orig =~= done);
    }
    r
}

#[derive(Debug)]
pub struct WorkspaceService;

impl WorkspaceService {
    /// Interprets the outcome of reading the workspace file: a missing
    /// file yields an empty document, everything else passes through.
    pub fn load(read: Option<Result<WorkspaceData, MosaicError>>) -> (r: Result<
        WorkspaceData,
        MosaicError,
    >)
        ensures
            read is None ==> (r matches Ok(d) && is_empty_document(d)),
            read matches Some(outcome) ==> r == outcome,
    {
        match read {
            None => Ok(WorkspaceData::new()),
            Some(outcome) => outcome,
        }
    }

    /// Replaces the node collection wholesale.
    pub fn update_nodes(doc: WorkspaceData, nodes: Vec<WorkspaceNode>) -> (r: WorkspaceData)
        ensures
            r.nodes@ == nodes@,
            r.edges@ == doc.edges@,
            r.version@ == doc.version@,
            r.settings == doc.settings,
    {
        WorkspaceData { nodes, ..doc }
    }

    /// Replaces the edge collection wholesale.
    pub fn update_edges(doc: WorkspaceData, edges: Vec<WorkspaceEdge>) -> (r: WorkspaceData)
        ensures
            r.edges@ == edges@,
            r.nodes@ == doc.nodes@,
            r.version@ == doc.version@,
            r.settings == doc.settings,
    {
        WorkspaceData { edges, ..doc }
    }

    /// Appends a single node.
    pub fn add_node(doc: WorkspaceData, node: WorkspaceNode) -> (r: WorkspaceData)
        ensures
            r.nodes@ == doc.nodes@.push(node),
            r.edges@ == doc.edges@,
            r.version@ == doc.version@,
            r.settings == doc.settings,
    {
        let mut d = doc;
        d.add_node(node);
        d
    }

    /// Removes a single node, cascading to the edges that touch it.
    pub fn remove_node(doc: WorkspaceData, node_id: &str) -> (r: WorkspaceData)
        ensures
            r.nodes@ == doc.nodes@.filter(node_kept_pred(node_id@)),
            r.edges@ == doc.edges@.filter(edge_kept_pred(node_id@)),
            r.version@ == doc.version@,
            r.settings == doc.settings,
    {
        let mut d = doc;
        d.remove_node(node_id);
        d
    }

    /// Appends a single edge.
    pub fn add_edge(doc: WorkspaceData, edge: WorkspaceEdge) -> (r: WorkspaceData)
        ensures
            r.edges@ == doc.edges@.push(edge),
            r.nodes@ == doc.nodes@,
            r.version@ == doc.version@,
            r.settings == doc.settings,
    {
        let mut d = doc;
        d.add_edge(edge);
        d
    }

    /// Removes a single edge; nodes are never touched.
    pub fn remove_edge(doc: WorkspaceData, edge_id: &str) -> (r: WorkspaceData)
        ensures
            r.edges@ == doc.edges@.filter(edge_not_named_pred(edge_id@)),
            r.nodes@ == doc.nodes@,
            r.version@ == doc.version@,
            r.settings == doc.settings,
    {
        let mut d = doc;
        d.remove_edge(edge_id);
        d
    }

    /// Applies all removals first (nodes cascading to their edges, then
    /// edges), then all additions (nodes, then edges). Added items are
    /// never affected by the removals of the same batch.
    pub fn batch_update(
        doc: WorkspaceData,
        nodes_to_add: Vec<WorkspaceNode>,
        nodes_to_remove: Vec<String>,
        edges_to_add: Vec<WorkspaceEdge>,
        edges_to_remove: Vec<String>,
    ) -> (r: WorkspaceData)
        ensures
            r.nodes@ == doc.nodes@.filter(batch_node_pred(nodes_to_remove.deep_view()))
                + nodes_to_add@,
            r.edges@ == doc.edges@.filter(
                batch_edge_pred(nodes_to_remove.deep_view(), edges_to_remove.deep_view()),
            ) + edges_to_add@,
            r.version@ == doc.version@,
            r.settings == doc.settings,
    {
        let mut d = doc;
        let mut nodes: Vec<WorkspaceNode> = Vec::new();
        core::mem::swap(&mut nodes, &mut d.nodes);
        let mut nodes = retain_batch_nodes(nodes, &nodes_to_remove);
        let mut adds = nodes_to_add;
        nodes.append(&mut adds);
        d.nodes = nodes;
        let mut edges: Vec<WorkspaceEdge> = Vec::new();
        core::mem::swap(&mut edges, &mut d.edges);
        let mut edges = retain_batch_edges(edges, &nodes_to_remove, &edges_to_remove);
        let mut eadds = edges_to_add;
        edges.append(&mut eadds);
        d.edges = edges;
        d
    }
}

/// Nodes of the document named `x`.
pub open spec fn named_node_pred(x: Seq<char>) -> spec_fn(WorkspaceNode) -> bool {
    |n: WorkspaceNode| n.id@ == x
}

/// How many nodes of the sequence carry the id `x`.
pub open spec fn count_nodes_named(s: Seq<WorkspaceNode>, x: Seq<char>) -> nat {
    s.filter(named_node_pred(x)).len()
}

proof fn lemma_filter_none<A>(s: Seq<A>, p: spec_fn(A) -> bool)
    requires
        forall|i: int| 0 <= i < s.len() ==> !p(s[i]),
    ensures
        s.filter(p) == Seq::<A>::empty(),
    decreases s.len(),
{
    reveal(Seq::filter);
    if s.len() > 0 {
        lemma_filter_none(s.drop_last(), p);
    }
}

/// A batch update that removes a node id owns that id afterwards: every
/// node so named in the result comes from the added nodes alone, so their
/// count is exactly the count among the additions.
pub proof fn lemma_batch_update_replaces_id(
    nodes: Seq<WorkspaceNode>,
    removed_ids: Seq<Seq<char>>,
    adds: Seq<WorkspaceNode>,
    x: Seq<char>,
)
    requires
        removed_ids.contains(x),
    ensures
        count_nodes_named(nodes.filter(batch_node_pred(removed_ids)) + adds, x)
            == count_nodes_named(adds, x),
{
    let kept = nodes.filter(batch_node_pred(removed_ids));
    Seq::filter_distributes_over_add(kept, adds, named_node_pred(x));
    assert forall|i: int| 0 <= i < kept.len() implies !named_node_pred(x)(kept[i]) by {
        nodes.lemma_filter_pred(batch_node_pred(removed_ids), i);
    }
    lemma_filter_none(kept, named_node_pred(x));
}

} // verus!

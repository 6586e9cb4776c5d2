//! The per-canvas workspace document: nodes, edges and settings.
//!
//! The store's one structural duty here: removing a node also removes
//! every edge that touches it, and nothing else; removing an edge never
//! touches nodes. Coordinates are IEEE-754 bit patterns (`u64`), and the
//! per-node and per-edge data bags are opaque key-value pairs preserved
//! untouched.

use vstd::prelude::*;
use vstd::string::*;
use vstd::seq_lib::*;

verus! {

fn default_version() -> (r: String)
    ensures
        r@ == "2.0.0"@,
{
    "2.0.0".to_owned()
}

/// A position on the canvas, both coordinates as IEEE-754 bit patterns.
#[derive(Debug)]
pub struct Position {
    pub x: u64,
    pub y: u64,
}

/// A node of the workspace graph.
#[derive(Debug)]
pub struct WorkspaceNode {
    /// Unique node id (caller-supplied).
    pub id: String,
    /// Node kind tag.
    pub node_type: String,
    /// Position on the canvas.
    pub position: Position,
    /// Optional dimensions, as IEEE-754 bit patterns.
    pub width: Option<u64>,
    pub height: Option<u64>,
    /// Layering index; higher draws on top.
    pub z_index: i32,
    /// Optional grouping reference.
    pub parent_id: Option<String>,
    /// Free-form data, carried through untouched.
    pub data: Vec<(String, serde_json::Value)>,
}

/// An edge of the workspace graph.
#[derive(Debug)]
pub struct WorkspaceEdge {
    /// Unique edge id (caller-supplied).
    pub id: String,
    /// Source node id.
    pub source: String,
    /// Target node id.
    pub target: String,
    /// Optional connection-point identifiers.
    pub source_handle: Option<String>,
    pub target_handle: Option<String>,
    /// Edge style tag.
    pub edge_type: String,
    /// Optional label.
    pub label: Option<String>,
    /// Whether the edge is animated.
    pub animated: bool,
    /// Free-form data, carried through untouched.
    pub data: Vec<(String, serde_json::Value)>,
}

/// Workspace display and autosave settings.
#[derive(Debug)]
pub struct WorkspaceSettings {
    pub grid_size: u32,
    pub snap_to_grid: bool,
    pub show_minimap: bool,
    pub auto_save: bool,
    pub auto_save_interval: u32,
    pub theme: String,
    pub default_node_color: String,
    pub default_edge_color: String,
}

/// What the settings record holds when nothing was configured.
pub open spec fn is_default_settings(s: WorkspaceSettings) -> bool {
    &&& s.grid_size == 20
    &&& s.snap_to_grid
    &&& s.show_minimap
    &&& s.auto_save
    &&& s.auto_save_interval == 1000
    &&& s.theme@ == "dark"@
    &&& s.default_node_color@ == "#1e1e1e"@
    &&& s.default_edge_color@ == "#555555"@
}

impl Default for WorkspaceSettings {
    fn default() -> (r: Self)
        ensures
            is_default_settings(r),
    {
        WorkspaceSettings {
            grid_size: 20,
            snap_to_grid: true,
            show_minimap: true,
            auto_save: true,
            auto_save_interval: 1000,
            theme: "dark".to_owned(),
            default_node_color: "#1e1e1e".to_owned(),
            default_edge_color: "#555555".to_owned(),
        }
    }
}

/// The workspace document persisted per canvas.
#[derive(Debug)]
pub struct WorkspaceData {
    /// Schema version tag.
    pub version: String,
    /// Nodes, in insertion order.
    pub nodes: Vec<WorkspaceNode>,
    /// Edges, in insertion order.
    pub edges: Vec<WorkspaceEdge>,
    /// Settings record.
    pub settings: WorkspaceSettings,
}

/// The node survives removal of the node named `id`.
pub open spec fn node_kept(n: WorkspaceNode, id: Seq<char>) -> bool {
    n.id@ != id
}

/// The edge survives removal of the node named `id`: neither endpoint
/// equals it.
pub open spec fn edge_kept(e: WorkspaceEdge, id: Seq<char>) -> bool {
    e.source@ != id && e.target@ != id
}

/// The node-survival predicate for removal of the node named `id`.
pub open spec fn node_kept_pred(id: Seq<char>) -> spec_fn(WorkspaceNode) -> bool {
    |n: WorkspaceNode| node_kept(n, id)
}

/// The edge-survival predicate for removal of the node named `id`.
pub open spec fn edge_kept_pred(id: Seq<char>) -> spec_fn(WorkspaceEdge) -> bool {
    |e: WorkspaceEdge| edge_kept(e, id)
}

/// The edge-survival predicate for removal of the edge named `id`.
pub open spec fn edge_not_named_pred(id: Seq<char>) -> spec_fn(WorkspaceEdge) -> bool {
    |e: WorkspaceEdge| e.id@ != id
}

/// What an empty document holds.
pub open spec fn is_empty_document(d: WorkspaceData) -> bool {
    &&& d.version@ == "2.0.0"@
    &&& d.nodes@ == Seq::<WorkspaceNode>::empty()
    &&& d.edges@ == Seq::<WorkspaceEdge>::empty()
    &&& is_default_settings(d.settings)
}

impl Default for WorkspaceData {
    fn default() -> (r: Self)
        ensures
            is_empty_document(r),
    {
        let r = WorkspaceData {
            version: default_version(),
            nodes: Vec::new(),
            edges: Vec::new(),
            settings: WorkspaceSettings::default(),
        };
        proof {
            assert(r.nodes@ =~= Seq::<WorkspaceNode>::empty());
            assert(r.edges@ =~= Seq::<WorkspaceEdge>::empty());
        }
        r
    }
}

fn retain_nodes_not_named(v: Vec<WorkspaceNode>, id: &str) -> (r: Vec<WorkspaceNode>)
    ensures
        r@ == v@.filter(node_kept_pred(id@)),
{
    broadcast use Seq::lemma_filter_push;

    let mut rest = v;
    let mut r: Vec<WorkspaceNode> = Vec::new();
    let ghost orig = rest@;
    let ghost mut done: Seq<WorkspaceNode> = Seq::empty();
    proof {
        assert(done.filter(node_kept_pred(id@)) =~= Seq::<
            WorkspaceNode,
        >::empty()) by {
            reveal(Seq::filter);
        }
    }
    while rest.len() > 0
        invariant
            orig =~= done + rest@,
            r@ =~= done.filter(node_kept_pred(id@)),
        decreases rest@.len(),
    {
        let x = rest.remove(0);
        let keep = !crate::strutil::str_eq(x.id.as_str(), id);
        proof {
            let done0 = done;
            done = done.push(x);
            done0.lemma_filter_push(x, node_kept_pred(id@));
            assert(node_kept_pred(id@)(x) == keep);
        }
        if keep {
            r.push(x);
        }
        proof {
            assert(orig =~= done + rest@);
        }
    }
    proof {
        assert(orig =~= done);
    }
    r
}

fn retain_edges_keeping_endpoints(v: Vec<WorkspaceEdge>, id: &str) -> (r: Vec<WorkspaceEdge>)
    ensures
        r@ == v@.filter(edge_kept_pred(id@)),
{
    broadcast use Seq::lemma_filter_push;

    let mut rest = v;
    let mut r: Vec<WorkspaceEdge> = Vec::new();
    let ghost orig = rest@;
    let ghost mut done: Seq<WorkspaceEdge> = Seq::empty();
    proof {
        assert(done.filter(edge_kept_pred(id@)) =~= Seq::<
            WorkspaceEdge,
        >::empty()) by {
            reveal(Seq::filter);
        }
    }
    while rest.len() > 0
        invariant
            orig =~= done + rest@,
            r@ =~= done.filter(edge_kept_pred(id@)),
        decreases rest@.len(),
    {
        let x = rest.remove(0);
        let keep = !crate::strutil::str_eq(x.source.as_str(), id) && !crate::strutil::str_eq(
            x.target.as_str(),
            id,
        );
        proof {
            let done0 = done;
            done = done.push(x);
            done0.lemma_filter_push(x, edge_kept_pred(id@));
            assert(edge_kept_pred(id@)(x) == keep);
        }
        if keep {
            r.push(x);
        }
        proof {
            assert(orig =~= done + rest@);
        }
    }
    proof {
        assert(orig =~= done);
    }
    r
}

fn retain_edges_not_named(v: Vec<WorkspaceEdge>, id: &str) -> (r: Vec<WorkspaceEdge>)
    ensures
        r@ == v@.filter(edge_not_named_pred(id@)),
{
    broadcast use Seq::lemma_filter_push;

    let mut rest = v;
    let mut r: Vec<WorkspaceEdge> = Vec::new();
    let ghost orig = rest@;
    let ghost mut done: Seq<WorkspaceEdge> = Seq::empty();
    proof {
        assert(done.filter(edge_not_named_pred(id@)) =~= Seq::<WorkspaceEdge>::empty()) by {
            reveal(Seq::filter);
        }
    }
    while rest.len() > 0
        invariant
            orig =~= done + rest@,
            r@ =~= done.filter(edge_not_named_pred(id@)),
        decreases rest@.len(),
    {
        let x = rest.remove(0);
        let keep = !crate::strutil::str_eq(x.id.as_str(), id);
        proof {
            let done0 = done;
            done = done.push(x);
            done0.lemma_filter_push(x, edge_not_named_pred(id@));
            assert(edge_not_named_pred(id@)(x) == keep);
        }
        if keep {
            r.push(x);
        }
        proof {
            assert(orig =~= done + rest@);
        }
    }
    proof {
        assert(orig =~= done);
    }
    r
}

impl WorkspaceData {
    /// An empty workspace document.
    pub fn new() -> (r: Self)
        ensures
            is_empty_document(r),
    {
        WorkspaceData::default()
    }

    /// Appends a node; everything else is untouched.
    pub fn add_node(&mut self, node: WorkspaceNode)
        ensures
            final(self).nodes@ == old(self).nodes@.push(node),
            final(self).edges@ == old(self).edges@,
            final(self).version@ == old(self).version@,
            final(self).settings == old(self).settings,
    {
        self.nodes.push(node);
    }

    /// Appends an edge; everything else is untouched.
    pub fn add_edge(&mut self, edge: WorkspaceEdge)
        ensures
            final(self).edges@ == old(self).edges@.push(edge),
            final(self).nodes@ == old(self).nodes@,
            final(self).version@ == old(self).version@,
            final(self).settings == old(self).settings,
    {
        self.edges.push(edge);
    }

    /// Removes every node named `node_id` and, cascading, every edge
    /// whose source or target is `node_id`; edges with neither endpoint
    /// equal to it survive in order.
    pub fn remove_node(&mut self, node_id: &str)
        ensures
            final(self).nodes@ == old(self).nodes@.filter(node_kept_pred(node_id@)),
            final(self).edges@ == old(self).edges@.filter(edge_kept_pred(node_id@)),
            final(self).version@ == old(self).version@,
            final(self).settings == old(self).settings,
    {
        let mut nodes: Vec<WorkspaceNode> = Vec::new();
        core::mem::swap(&mut nodes, &mut self.nodes);
        self.nodes = retain_nodes_not_named(nodes, node_id);
        let mut edges: Vec<WorkspaceEdge> = Vec::new();
        core::mem::swap(&mut edges, &mut self.edges);
        self.edges = retain_edges_keeping_endpoints(edges, node_id);
    }

    /// Removes every edge named `edge_id`; nodes are never touched.
    pub fn remove_edge(&mut self, edge_id: &str)
        ensures
            final(self).edges@ == old(self).edges@.filter(edge_not_named_pred(edge_id@)),
            final(self).nodes@ == old(self).nodes@,
            final(self).version@ == old(self).version@,
            final(self).settings == old(self).settings,
    {
        let mut edges: Vec<WorkspaceEdge> = Vec::new();
        core::mem::swap(&mut edges, &mut self.edges);
        self.edges = retain_edges_not_named(edges, edge_id);
    }

    /// The first node named `node_id`, if any.
    pub fn find_node(&self, node_id: &str) -> (r: Option<&WorkspaceNode>)
        ensures
            r matches Some(n) ==> n.id@ == node_id@ && self.nodes@.contains(*n),
            r is None ==> forall|i: int|
                0 <= i < self.nodes@.len() ==> self.nodes@[i].id@ != node_id@,
    {
        let mut i: usize = 0;
        while i < self.nodes.len()
            invariant
                i <= self.nodes@.len(),
                forall|j: int| 0 <= j < i ==> self.nodes@[j].id@ != node_id@,
            decreases self.nodes@.len() - i,
        {
            if crate::strutil::str_eq(self.nodes[i].id.as_str(), node_id) {
                return Some(&self.nodes[i]);
            }
            i = i + 1;
        }
        None
    }
}

/// Removal of a node cascades exactly to the edges that touch it: no
/// surviving edge touches the removed node, and every edge that did not
/// touch it survives.
pub proof fn lemma_remove_node_cascade(edges: Seq<WorkspaceEdge>, id: Seq<char>)
    ensures
        forall|i: int|
            0 <= i < edges.filter(edge_kept_pred(id)).len() ==> edge_kept(
                #[trigger] edges.filter(edge_kept_pred(id))[i],
                id,
            ),
        forall|i: int|
            0 <= i < edges.len() && edge_kept(#[trigger] edges[i], id) ==> edges.filter(
                edge_kept_pred(id),
            ).contains(edges[i]),
{
    let flt = edges.filter(edge_kept_pred(id));
    assert forall|i: int| 0 <= i < flt.len() implies edge_kept(flt[i], id) by {
        edges.lemma_filter_pred(edge_kept_pred(id), i);
    }
    assert forall|i: int|
        0 <= i < edges.len() && edge_kept(edges[i], id) implies flt.contains(edges[i]) by {
        edges.lemma_filter_contains(edge_kept_pred(id), i);
    }
}

} // verus!

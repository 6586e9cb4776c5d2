use mosaic_core::workspace::{Position, WorkspaceData, WorkspaceEdge, WorkspaceNode};
use mosaic_core::workspace_service::WorkspaceService;

fn node(id: &str) -> WorkspaceNode {
    WorkspaceNode {
        id: id.to_string(),
        node_type: "note".to_string(),
        position: Position { x: 0, y: 0 },
        width: None,
        height: None,
        z_index: 1,
        parent_id: None,
        data: Vec::new(),
    }
}

fn edge(id: &str, source: &str, target: &str) -> WorkspaceEdge {
    WorkspaceEdge {
        id: id.to_string(),
        source: source.to_string(),
        target: target.to_string(),
        source_handle: None,
        target_handle: None,
        edge_type: "default".to_string(),
        label: None,
        animated: false,
        data: Vec::new(),
    }
}

#[test]
fn empty_document_defaults() {
    let d = WorkspaceData::new();
    assert_eq!(d.version, "2.0.0");
    assert!(d.nodes.is_empty());
    assert!(d.edges.is_empty());
    assert_eq!(d.settings.grid_size, 20);
    assert!(d.settings.snap_to_grid);
    assert!(d.settings.show_minimap);
    assert!(d.settings.auto_save);
    assert_eq!(d.settings.auto_save_interval, 1000);
    assert_eq!(d.settings.theme, "dark");
    assert_eq!(d.settings.default_node_color, "#1e1e1e");
    assert_eq!(d.settings.default_edge_color, "#555555");
}

#[test]
fn remove_node_cascades_to_touching_edges_only() {
    let mut d = WorkspaceData::new();
    d.add_node(node("a"));
    d.add_node(node("b"));
    d.add_node(node("c"));
    d.add_edge(edge("e1", "a", "b"));
    d.add_edge(edge("e2", "b", "c"));
    d.add_edge(edge("e3", "c", "a"));
    d.remove_node("a");
    let ids: Vec<&str> = d.nodes.iter().map(|n| n.id.as_str()).collect();
    assert_eq!(ids, vec!["b", "c"]);
    let eids: Vec<&str> = d.edges.iter().map(|e| e.id.as_str()).collect();
    assert_eq!(eids, vec!["e2"]);
}

#[test]
fn remove_edge_never_touches_nodes() {
    let mut d = WorkspaceData::new();
    d.add_node(node("a"));
    d.add_edge(edge("e1", "a", "a"));
    d.remove_edge("e1");
    assert_eq!(d.nodes.len(), 1);
    assert!(d.edges.is_empty());
}

#[test]
fn find_node_returns_first_match() {
    let mut d = WorkspaceData::new();
    d.add_node(node("a"));
    d.add_node(node("b"));
    assert_eq!(d.find_node("b").unwrap().id, "b");
    assert!(d.find_node("zz").is_none());
}

#[test]
fn batch_update_removes_before_adding() {
    let mut d = WorkspaceData::new();
    d.add_node(node("a"));
    d.add_node(node("b"));
    d.add_edge(edge("e1", "a", "b"));
    let mut replacement = node("a");
    replacement.z_index = 9;
    let d = WorkspaceService::batch_update(
        d,
        vec![replacement],
        vec!["a".to_string()],
        vec![edge("e2", "a", "b")],
        vec![],
    );
    let with_id: Vec<&WorkspaceNode> = d.nodes.iter().filter(|n| n.id == "a").collect();
    assert_eq!(with_id.len(), 1);
    assert_eq!(with_id[0].z_index, 9);
    // the old edge at "a" cascaded away; the freshly added one survived
    let eids: Vec<&str> = d.edges.iter().map(|e| e.id.as_str()).collect();
    assert_eq!(eids, vec!["e2"]);
}

#[test]
fn batch_update_edge_removals_apply_to_existing_edges() {
    let mut d = WorkspaceData::new();
    d.add_node(node("a"));
    d.add_node(node("b"));
    d.add_edge(edge("e1", "a", "b"));
    d.add_edge(edge("e2", "b", "a"));
    let d = WorkspaceService::batch_update(d, vec![], vec![], vec![], vec!["e1".to_string()]);
    let eids: Vec<&str> = d.edges.iter().map(|e| e.id.as_str()).collect();
    assert_eq!(eids, vec!["e2"]);
    assert_eq!(d.nodes.len(), 2);
}

#[test]
fn update_collections_replace_wholesale() {
    let mut d = WorkspaceData::new();
    d.add_node(node("a"));
    let d = WorkspaceService::update_nodes(d, vec![node("x"), node("y")]);
    assert_eq!(d.nodes.len(), 2);
    assert_eq!(d.nodes[0].id, "x");
    let d = WorkspaceService::update_edges(d, vec![edge("e9", "x", "y")]);
    assert_eq!(d.edges.len(), 1);
    assert_eq!(d.edges[0].id, "e9");
}

#[test]
fn load_defaults_when_file_is_absent() {
    let d = WorkspaceService::load(None).unwrap();
    assert!(d.nodes.is_empty());
    assert!(d.edges.is_empty());
    assert_eq!(d.version, "2.0.0");
}

#[test]
fn data_bags_round_trip_untouched() {
    let mut n = node("a");
    n.data.push(("k".to_string(), serde_json::Value::String("v".to_string())));
    n.data.push(("n".to_string(), serde_json::Value::Null));
    let mut d = WorkspaceData::new();
    d.add_node(n);
    let d = WorkspaceService::remove_node(d, "zzz");
    assert_eq!(d.nodes[0].data.len(), 2);
    assert_eq!(d.nodes[0].data[0].0, "k");
    assert_eq!(d.nodes[0].data[0].1, serde_json::Value::String("v".to_string()));
}

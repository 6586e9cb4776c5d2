use mosaic_core::canvas::{CanvasMeta, CanvasUIState, COORD_ZERO_BITS, ZOOM_ONE_BITS};
use mosaic_core::canvas_service::{CanvasDirSnapshot, CanvasService};
use mosaic_core::error::{ErrorCode, MosaicError};
use mosaic_core::migration::MigrationService;

fn meta(id: &str, vault: &str, name: &str) -> CanvasMeta {
    CanvasMeta {
        id: id.to_string(),
        vault_id: vault.to_string(),
        name: name.to_string(),
        description: String::new(),
        tags: Vec::new(),
        created_at: "2024-01-01T00:00:00+00:00".to_string(),
        updated_at: "2024-01-01T00:00:00+00:00".to_string(),
        version: "2.0.0".to_string(),
    }
}

fn snapshot_v2(path: &str, m: CanvasMeta) -> CanvasDirSnapshot {
    CanvasDirSnapshot {
        path: path.to_string(),
        meta_read: Some(Ok(m)),
        legacy_read: None,
        folder_name: "folder".to_string(),
        vault_doc: None,
        state_exists: true,
    }
}

#[test]
fn create_resolves_collisions_with_numeric_suffixes() {
    let dir = "/v/canvases".to_string();
    let plan = CanvasService::create(&dir, "vid", "X", None, &vec![]);
    assert_eq!(plan.folder_name, "X");
    let plan = CanvasService::create(&dir, "vid", "X", None, &vec!["X".to_string()]);
    assert_eq!(plan.folder_name, "X_1");
    let plan = CanvasService::create(
        &dir,
        "vid",
        "X",
        None,
        &vec!["X".to_string(), "X_1".to_string()],
    );
    assert_eq!(plan.folder_name, "X_2");
}

#[test]
fn create_plan_contents() {
    let dir = "/v/canvases".to_string();
    let plan = CanvasService::create(&dir, "vid", "My Canvas", Some("notes"), &vec![]);
    assert_eq!(plan.paths.root, "/v/canvases/My Canvas");
    assert_eq!(plan.paths.meta_json, "/v/canvases/My Canvas/.mosaic/meta.json");
    assert_eq!(plan.paths.state_json, "/v/canvases/My Canvas/.mosaic/state.json");
    assert_eq!(plan.paths.workspace_json, "/v/canvases/My Canvas/workspace.json");
    assert_eq!(plan.meta.id.len(), 36);
    assert_eq!(plan.meta.vault_id, "vid");
    assert_eq!(plan.meta.name, "My Canvas");
    assert_eq!(plan.meta.description, "notes");
    assert_eq!(plan.meta.version, "2.0.0");
    assert!(plan.meta.tags.is_empty());
    assert_eq!(plan.info.id, plan.meta.id);
    assert_eq!(plan.info.path, plan.paths.root);
    assert!(plan.workspace.nodes.is_empty());
    assert_eq!(plan.state.canvas_mode, "select");
}

#[test]
fn open_reads_current_schema() {
    let out = CanvasService::open(snapshot_v2("/v/canvases/c", meta("cid", "vid", "C"))).unwrap();
    assert_eq!(out.info.id, "cid");
    assert_eq!(out.info.vault_id, "vid");
    assert_eq!(out.info.path, "/v/canvases/c");
    assert!(out.migration.is_none());
}

#[test]
fn open_without_any_marker_fails_not_found() {
    let snap = CanvasDirSnapshot {
        path: "/v/canvases/ghost".to_string(),
        meta_read: None,
        legacy_read: None,
        folder_name: "ghost".to_string(),
        vault_doc: None,
        state_exists: false,
    };
    let err = CanvasService::open(snap).unwrap_err();
    assert_eq!(err.code, ErrorCode::CanvasNotFound);
}

#[test]
fn open_migrates_legacy_marker() {
    let snap = CanvasDirSnapshot {
        path: "/v/canvases/old".to_string(),
        meta_read: None,
        legacy_read: Some(Ok(r#"{"id": "legacy-id", "name": "Old Canvas"}"#.to_string())),
        folder_name: "old".to_string(),
        vault_doc: Some(r#"{"id": "owning-vault"}"#.to_string()),
        state_exists: false,
    };
    let out = CanvasService::open(snap).unwrap();
    let mg = out.migration.unwrap();
    assert_eq!(mg.meta.id, "legacy-id");
    assert_eq!(mg.meta.vault_id, "owning-vault");
    assert_eq!(mg.meta.name, "Old Canvas");
    assert_eq!(mg.meta.version, "2.0.0");
    assert!(mg.write_default_state);
    assert_eq!(out.info.id, "legacy-id");
}

#[test]
fn migration_mints_placeholders_for_missing_references() {
    let out = MigrationService::migrate_canvas(
        &"/v/canvases/old".to_string(),
        "old",
        Some(Ok(r#"{"name": "Only Name"}"#.to_string())),
        None,
        true,
    )
    .unwrap();
    assert_eq!(out.meta.id.len(), 36);
    assert_eq!(out.meta.vault_id.len(), 36);
    assert_eq!(out.meta.name, "Only Name");
    assert!(!out.write_default_state);
}

#[test]
fn migration_without_legacy_uses_folder_name() {
    let out = MigrationService::migrate_canvas(
        &"/v/canvases/bare".to_string(),
        "bare",
        None,
        None,
        false,
    )
    .unwrap();
    assert_eq!(out.meta.name, "bare");
    assert_eq!(out.meta.id.len(), 36);
}

#[test]
fn open_reports_unparseable_legacy_document() {
    let snap = CanvasDirSnapshot {
        path: "/v/canvases/bad".to_string(),
        meta_read: None,
        legacy_read: Some(Ok("not json".to_string())),
        folder_name: "bad".to_string(),
        vault_doc: None,
        state_exists: false,
    };
    let err = CanvasService::open(snap).unwrap_err();
    assert_eq!(err.code, ErrorCode::InvalidJson);
}

#[test]
fn list_sorts_by_updated_at_descending_and_skips_broken_entries() {
    let mut older = meta("c-old", "vid", "Old");
    older.updated_at = "2024-01-01T00:00:00+00:00".to_string();
    let mut newer = meta("c-new", "vid", "New");
    newer.updated_at = "2025-06-01T00:00:00+00:00".to_string();
    let broken = CanvasDirSnapshot {
        path: "/v/canvases/broken".to_string(),
        meta_read: Some(Err(MosaicError::json_error("corrupt"))),
        legacy_read: None,
        folder_name: "broken".to_string(),
        vault_doc: None,
        state_exists: true,
    };
    let (infos, migrations) = CanvasService::list(vec![
        snapshot_v2("/v/canvases/old", older),
        broken,
        snapshot_v2("/v/canvases/new", newer),
    ]);
    assert_eq!(infos.len(), 2);
    assert_eq!(infos[0].id, "c-new");
    assert_eq!(infos[1].id, "c-old");
    assert!(migrations.is_empty());
}

#[test]
fn rename_moves_folder_only_when_target_is_free() {
    let path = "/v/canvases/OldName".to_string();
    let parent = "/v/canvases".to_string();
    let plan = CanvasService::rename(&path, &parent, Ok(meta("cid", "vid", "OldName")), "New Name", false)
        .unwrap();
    assert_eq!(plan.meta.name, "New Name");
    assert!(plan.do_move);
    assert_eq!(plan.new_path, "/v/canvases/New Name");
    assert_eq!(plan.info.path, "/v/canvases/New Name");

    let plan = CanvasService::rename(&path, &parent, Ok(meta("cid", "vid", "OldName")), "New Name", true)
        .unwrap();
    assert!(!plan.do_move);
    assert_eq!(plan.info.path, path);

    let plan = CanvasService::rename(&path, &parent, Ok(meta("cid", "vid", "OldName")), "OldName", false)
        .unwrap();
    assert!(!plan.do_move);
}

#[test]
fn delete_reports_id_only_when_readable() {
    assert_eq!(
        CanvasService::delete(Some(Ok(meta("cid", "v", "C")))).as_deref(),
        Some("cid")
    );
    assert!(CanvasService::delete(None).is_none());
    assert!(CanvasService::delete(Some(Err(MosaicError::json_error("bad")))).is_none());
}

#[test]
fn tag_and_description_updates_require_current_schema() {
    let path = "/v/canvases/c".to_string();
    let err = CanvasService::update_tags(&path, None, vec!["t".to_string()]).unwrap_err();
    assert_eq!(err.code, ErrorCode::CanvasNotFound);
    let (m2, info) = CanvasService::update_tags(
        &path,
        Some(Ok(meta("cid", "vid", "C"))),
        vec!["a".to_string(), "b".to_string()],
    )
    .unwrap();
    assert_eq!(m2.tags, vec!["a".to_string(), "b".to_string()]);
    assert_eq!(info.tags, m2.tags);
    let (m3, _) = CanvasService::update_description(&path, Some(Ok(m2)), "about").unwrap();
    assert_eq!(m3.description, "about");
}

#[test]
fn tag_add_and_remove() {
    let mut m = meta("cid", "vid", "C");
    m.add_tag("one".to_string());
    m.add_tag("two".to_string());
    m.add_tag("one".to_string());
    assert_eq!(m.tags, vec!["one".to_string(), "two".to_string()]);
    m.remove_tag("one");
    assert_eq!(m.tags, vec!["two".to_string()]);
    m.remove_tag("zzz");
    assert_eq!(m.tags, vec!["two".to_string()]);
}

#[test]
fn load_state_defaults_when_file_is_absent() {
    let s = CanvasService::load_state(None).unwrap();
    assert_eq!(s.viewport.x, COORD_ZERO_BITS);
    assert_eq!(s.viewport.y, COORD_ZERO_BITS);
    assert_eq!(s.viewport.zoom, ZOOM_ONE_BITS);
    assert_eq!(f64::from_bits(s.viewport.x), 0.0);
    assert_eq!(f64::from_bits(s.viewport.y), 0.0);
    assert_eq!(f64::from_bits(s.viewport.zoom), 1.0);
    assert!(s.selected_nodes.is_empty());
    assert!(s.selected_edges.is_empty());
    assert_eq!(s.canvas_mode, "select");
}

#[test]
fn save_state_stamps_but_keeps_contents() {
    let mut s = CanvasUIState::default();
    s.selected_nodes.push("n1".to_string());
    let saved = CanvasService::save_state(s);
    assert_eq!(saved.selected_nodes, vec!["n1".to_string()]);
    assert_eq!(saved.canvas_mode, "select");
    assert!(!saved.updated_at.is_empty());
}

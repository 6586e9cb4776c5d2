use mosaic_core::appstate::AppState;
use mosaic_core::canvas_service::{CanvasDirSnapshot, CanvasService};
use mosaic_core::config::AppConfig;
use mosaic_core::error::{ErrorCode, MosaicError};
use mosaic_core::migration::MigrationService;
use mosaic_core::vault::VaultMeta;
use mosaic_core::vault_service::VaultService;

fn vmeta(id: &str, name: &str) -> VaultMeta {
    VaultMeta {
        id: id.to_string(),
        name: name.to_string(),
        description: String::new(),
        created_at: "2024-01-01T00:00:00+00:00".to_string(),
        updated_at: "2024-01-01T00:00:00+00:00".to_string(),
        version: "2.0.0".to_string(),
    }
}

#[test]
fn create_rejects_existing_vault() {
    let err = VaultService::create(&"/p".to_string(), "Demo", None, true, &vec![]).unwrap_err();
    assert_eq!(err.code, ErrorCode::AlreadyExists);
    assert_eq!(err.message, "Vault already exists");
}

#[test]
fn create_then_open_round_trip() {
    let path = "/vaults/demo".to_string();
    let plan = VaultService::create(&path, "Demo", Some("a demo vault"), false, &vec![]).unwrap();
    assert_eq!(plan.meta.id.len(), 36);
    assert_eq!(plan.meta.name, "Demo");
    assert_eq!(plan.meta.description, "a demo vault");
    assert_eq!(plan.info.canvas_count, 1);
    // opening what create wrote yields the same identity
    let reopened = VaultService::open(&path, Some(Ok(plan.meta)), 1).unwrap();
    assert_eq!(reopened.id, plan.info.id);
    assert_eq!(reopened.name, plan.info.name);
    assert_eq!(reopened.description, plan.info.description);
}

#[test]
fn end_to_end_fresh_vault_has_one_untitled_canvas() {
    let path = "/vaults/demo".to_string();
    let plan = VaultService::create(&path, "Demo", None, false, &vec![]).unwrap();
    // exactly one default canvas named Untitled, housed under canvases/
    assert_eq!(plan.canvas.folder_name, "Untitled");
    assert_eq!(plan.canvas.meta.name, "Untitled");
    assert_eq!(plan.canvas.meta.vault_id, plan.meta.id);
    assert_eq!(plan.canvas.paths.root, "/vaults/demo/canvases/Untitled");
    assert_eq!(plan.info.canvas_count, 1);
    // listing the canvases directory that create laid down shows that one entry
    let snapshot = CanvasDirSnapshot {
        path: plan.canvas.paths.root.clone(),
        meta_read: Some(Ok(plan.canvas.meta)),
        legacy_read: None,
        folder_name: plan.canvas.folder_name.clone(),
        vault_doc: None,
        state_exists: true,
    };
    let (infos, _) = CanvasService::list(vec![snapshot]);
    assert_eq!(infos.len(), 1);
    assert_eq!(infos[0].name, "Untitled");
    // opening that canvas returns the id stored in its metadata file
    assert_eq!(infos[0].id, plan.canvas.info.id);
}

#[test]
fn open_failures() {
    let path = "/p".to_string();
    let err = VaultService::open(&path, None, 0).unwrap_err();
    assert_eq!(err.code, ErrorCode::VaultNotFound);
    assert_eq!(err.message, "Vault not found at: /p");
    let err = VaultService::open(&path, Some(Err(MosaicError::json_error("bad"))), 0).unwrap_err();
    assert_eq!(err.code, ErrorCode::InvalidJson);
}

#[test]
fn rename_and_update_description_touch_the_record() {
    let path = "/p".to_string();
    let (m2, info) = VaultService::rename(&path, Some(Ok(vmeta("v1", "Old"))), "New", 3).unwrap();
    assert_eq!(m2.name, "New");
    assert_eq!(m2.id, "v1");
    assert_eq!(info.name, "New");
    assert_eq!(info.canvas_count, 3);
    let (m3, info) =
        VaultService::update_description(&path, Some(Ok(m2)), "described", 3).unwrap();
    assert_eq!(m3.description, "described");
    assert_eq!(info.description, "described");
}

#[test]
fn get_info_and_id_are_optional_reads() {
    let path = "/p".to_string();
    assert!(VaultService::get_info(&path, None, 0).unwrap().is_none());
    let info = VaultService::get_info(&path, Some(Ok(vmeta("v9", "V"))), 2).unwrap().unwrap();
    assert_eq!(info.id, "v9");
    assert_eq!(VaultService::get_vault_id(None).unwrap(), None);
    assert_eq!(
        VaultService::get_vault_id(Some(Ok(vmeta("v9", "V")))).unwrap().as_deref(),
        Some("v9")
    );
}

#[test]
fn vault_migration_assigns_id_once() {
    let path = "/legacy".to_string();
    let legacy = r#"{"name": "Old Vault", "created_at": "2020-05-05T00:00:00+00:00", "version": "1.0"}"#;
    let first =
        MigrationService::migrate_vault(&path, Some(Ok(legacy.to_string())), 0).unwrap();
    let (meta1, info1) = first.outcome.unwrap();
    assert_eq!(meta1.id.len(), 36);
    assert_eq!(meta1.name, "Old Vault");
    assert_eq!(meta1.version, "2.0.0");
    assert_eq!(meta1.description, "");
    assert_eq!(info1.id, meta1.id);
    // migrating the rewritten document again keeps the same id
    let second =
        MigrationService::migrate_vault(&path, Some(Ok(first.new_text.clone())), 0).unwrap();
    let (meta2, _) = second.outcome.unwrap();
    assert_eq!(meta2.id, meta1.id);
    assert_eq!(meta2.version, "2.0.0");
    assert_eq!(meta2.name, "Old Vault");
    assert_eq!(meta2.created_at, "2020-05-05T00:00:00+00:00");
}

#[test]
fn vault_migration_failures() {
    let path = "/legacy".to_string();
    let err = MigrationService::migrate_vault(&path, None, 0).unwrap_err();
    assert_eq!(err.code, ErrorCode::VaultNotFound);
    let err =
        MigrationService::migrate_vault(&path, Some(Ok("nonsense".to_string())), 0).unwrap_err();
    assert_eq!(err.code, ErrorCode::InvalidJson);
    let err =
        MigrationService::migrate_vault(&path, Some(Ok("[1, 2]".to_string())), 0).unwrap_err();
    assert_eq!(err.code, ErrorCode::InvalidFormat);
    // a document without a name rewrites in place but fails validation
    let out = MigrationService::migrate_vault(&path, Some(Ok("{}".to_string())), 0).unwrap();
    assert_eq!(out.outcome.unwrap_err().code, ErrorCode::InvalidJson);
}

#[test]
fn needs_migration_checks() {
    assert!(MigrationService::vault_needs_migration(None));
    assert!(MigrationService::vault_needs_migration(Some(Err(MosaicError::io_error("x")))));
    assert!(MigrationService::vault_needs_migration(Some(Ok("{}".to_string()))));
    assert!(MigrationService::vault_needs_migration(Some(Ok(
        r#"{"id": "x", "version": "1.0"}"#.to_string()
    ))));
    assert!(!MigrationService::vault_needs_migration(Some(Ok(
        r#"{"id": "x", "version": "2.0.0"}"#.to_string()
    ))));
    assert!(MigrationService::canvas_needs_migration(false, true));
    assert!(!MigrationService::canvas_needs_migration(true, true));
    assert!(!MigrationService::canvas_needs_migration(false, false));
}

#[test]
fn app_state_partial_updates() {
    let mut s = AppState::new();
    assert!(s.last_vault_id.is_none());
    assert!(s.last_canvas_id.is_none());
    assert_eq!(s.version, "1.0.0");
    s.set_last_opened(Some("v1".to_string()), Some("c1".to_string()));
    s.set_last_opened(None, Some("c2".to_string()));
    assert_eq!(s.last_vault_id.as_deref(), Some("v1"));
    assert_eq!(s.last_canvas_id.as_deref(), Some("c2"));
    s.set_last_vault("v2".to_string());
    assert_eq!(s.last_vault_id.as_deref(), Some("v2"));
    assert_eq!(s.last_canvas_id.as_deref(), Some("c2"));
    let loaded = AppState::load(None).unwrap();
    assert!(loaded.last_vault_id.is_none());
}

#[test]
fn app_config_defaults() {
    let c = AppConfig::load(None).unwrap();
    assert!(c.current_vault_path.is_none());
    assert!(c.current_canvas_path.is_none());
    assert!(c.recent_vaults.is_empty());
    let c2 = AppConfig::new();
    assert!(c2.current_vault_path.is_none());
}

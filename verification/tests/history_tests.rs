use mosaic_core::history::AppHistory;

fn empty_history(max: usize) -> AppHistory {
    AppHistory { vaults: Vec::new(), canvases: Vec::new(), max_items: max }
}

#[test]
fn track_vault_twice_updates_count_without_duplicate() {
    let mut h = AppHistory::default();
    h.track_vault("v1".to_string(), "My Vault".to_string(), "/vaults/my".to_string());
    assert_eq!(h.vaults.len(), 1);
    assert_eq!(h.vaults[0].open_count, 1);
    let added_at = h.vaults[0].added_at.clone();
    h.track_vault("v1".to_string(), "Renamed".to_string(), "/vaults/moved".to_string());
    assert_eq!(h.vaults.len(), 1);
    assert_eq!(h.vaults[0].open_count, 2);
    assert_eq!(h.vaults[0].name, "Renamed");
    assert_eq!(h.vaults[0].path, "/vaults/moved");
    assert_eq!(h.vaults[0].added_at, added_at);
}

#[test]
fn history_never_exceeds_cap() {
    let mut h = empty_history(3);
    for i in 0..10 {
        h.track_vault(format!("v{}", i), format!("Vault {}", i), format!("/v/{}", i));
        assert!(h.vaults.len() <= 3);
    }
    assert_eq!(h.vaults.len(), 3);
}

#[test]
fn canvas_history_cap_and_upsert() {
    let mut h = empty_history(2);
    h.track_canvas("c1".into(), "v1".into(), "One".into(), "/c/1".into());
    h.track_canvas("c1".into(), "v1".into(), "One again".into(), "/c/1".into());
    assert_eq!(h.canvases.len(), 1);
    assert_eq!(h.canvases[0].open_count, 2);
    h.track_canvas("c2".into(), "v1".into(), "Two".into(), "/c/2".into());
    h.track_canvas("c3".into(), "v2".into(), "Three".into(), "/c/3".into());
    assert_eq!(h.canvases.len(), 2);
}

#[test]
fn remove_vault_cascades_to_its_canvases() {
    let mut h = AppHistory::default();
    h.track_vault("v1".into(), "A".into(), "/a".into());
    h.track_vault("v2".into(), "B".into(), "/b".into());
    h.track_canvas("c1".into(), "v1".into(), "C1".into(), "/a/c1".into());
    h.track_canvas("c2".into(), "v2".into(), "C2".into(), "/b/c2".into());
    h.track_canvas("c3".into(), "v1".into(), "C3".into(), "/a/c3".into());
    h.remove_vault("v1");
    assert!(h.find_vault("v1").is_none());
    assert!(h.find_vault("v2").is_some());
    assert_eq!(h.canvases.len(), 1);
    assert_eq!(h.canvases[0].id, "c2");
}

#[test]
fn remove_canvas_leaves_vaults_alone() {
    let mut h = AppHistory::default();
    h.track_vault("v1".into(), "A".into(), "/a".into());
    h.track_canvas("c1".into(), "v1".into(), "C1".into(), "/a/c1".into());
    h.remove_canvas("c1");
    assert!(h.find_canvas("c1").is_none());
    assert_eq!(h.vaults.len(), 1);
}

#[test]
fn recent_lists_respect_limit_and_filter() {
    let mut h = AppHistory::default();
    h.track_vault("v1".into(), "A".into(), "/a".into());
    h.track_vault("v2".into(), "B".into(), "/b".into());
    h.track_canvas("c1".into(), "v1".into(), "C1".into(), "/a/c1".into());
    h.track_canvas("c2".into(), "v2".into(), "C2".into(), "/b/c2".into());
    assert_eq!(h.recent_vaults(1).len(), 1);
    assert_eq!(h.recent_vaults(10).len(), 2);
    let only_v1 = h.recent_canvases(Some("v1"), 10);
    assert_eq!(only_v1.len(), 1);
    assert_eq!(only_v1[0].id, "c1");
    assert_eq!(h.recent_canvases(None, 10).len(), 2);
    assert_eq!(h.recent_canvases(None, 1).len(), 1);
}

#[test]
fn tracked_entries_stay_sorted_newest_first() {
    let mut h = AppHistory::default();
    for i in 0..5 {
        h.track_vault(format!("v{}", i), format!("V{}", i), format!("/{}", i));
    }
    for w in h.vaults.windows(2) {
        assert!(w[0].last_opened >= w[1].last_opened);
    }
}

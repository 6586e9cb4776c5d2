//! Event payload records.
//!
//! The store itself broadcasts nothing; the caller builds these payloads
//! from operation results and hands them to its notification channel.

use vstd::prelude::*;

verus! {

/// Payload for vault lifecycle notifications.
#[derive(Debug)]
pub struct VaultEvent {
    pub vault_id: String,
    pub vault_path: String,
    pub vault_name: String,
}

/// Payload for canvas lifecycle notifications.
#[derive(Debug)]
pub struct CanvasEvent {
    pub canvas_id: String,
    pub canvas_path: String,
    pub canvas_name: String,
    pub vault_id: String,
}

/// What part of the workspace a change touched.
#[derive(Debug)]
pub enum WorkspaceChangeType {
    Loaded,
    Saved,
    NodesAdded,
    NodesUpdated,
    NodesDeleted,
    EdgesAdded,
    EdgesUpdated,
    EdgesDeleted,
    BatchUpdate,
}

/// Payload for workspace change notifications.
#[derive(Debug)]
pub struct WorkspaceEvent {
    pub canvas_path: String,
    pub change_type: WorkspaceChangeType,
    pub node_ids: Option<Vec<String>>,
    pub edge_ids: Option<Vec<String>>,
}

/// Payload for session state notifications.
#[derive(Debug)]
pub struct StateEvent {
    pub last_vault_id: Option<String>,
    pub last_canvas_id: Option<String>,
}

/// Payload for history change notifications.
#[derive(Debug)]
pub struct HistoryEvent {
    pub vault_count: usize,
    pub canvas_count: usize,
}

} // verus!

//! Verified persistence core for a vault/canvas note-keeping application.
//!
//! The library holds the decision logic of the store: metadata records and
//! their lifecycle operations, schema migration, the workspace node/edge
//! graph, the most-recently-used history index, and the session state
//! record. File reading and writing is left to the caller, which hands the
//! functions here the values it read and writes back the values they return.

pub mod appstate;
pub mod canvas;
pub mod canvas_service;
pub mod clock;
pub mod config;
pub mod error;
pub mod events;
pub mod history;
pub mod ids;
pub mod jsondoc;
pub mod jsonvalue;
pub mod migration;
pub mod paths;
pub mod results;
pub mod sanitize;
pub mod strutil;
pub mod vault;
pub mod vault_service;
pub mod workspace;
pub mod workspace_service;

//! The older path-based application configuration record.

use vstd::prelude::*;
use crate::error::MosaicError;

verus! {

/// A recently opened vault, tracked by path.
#[derive(Debug)]
pub struct RecentVault {
    /// Vault name.
    pub name: String,
    /// Vault path.
    pub path: String,
    /// When the vault was last opened (RFC 3339).
    pub last_opened: String,
}

/// Application configuration: current vault and canvas paths plus a list
/// of recent vaults.
#[derive(Debug)]
pub struct AppConfig {
    /// Path of the currently open vault, if any.
    pub current_vault_path: Option<String>,
    /// Path of the currently open canvas, if any.
    pub current_canvas_path: Option<String>,
    /// Recently opened vaults.
    pub recent_vaults: Vec<RecentVault>,
}

impl Default for AppConfig {
    /// No vault open, nothing recent.
    fn default() -> (r: Self)
        ensures
            r.current_vault_path is None,
            r.current_canvas_path is None,
            r.recent_vaults@ == Seq::<RecentVault>::empty(),
    {
        let r = AppConfig {
            current_vault_path: None,
            current_canvas_path: None,
            recent_vaults: Vec::new(),
        };
        proof {
            assert(r.recent_vaults@ =~= Seq::<RecentVault>::empty());
        }
        r
    }
}

impl AppConfig {
    /// A fresh, empty configuration.
    pub fn new() -> (r: Self)
        ensures
            r.current_vault_path is None,
            r.current_canvas_path is None,
            r.recent_vaults@ == Seq::<RecentVault>::empty(),
    {
        AppConfig::default()
    }

    /// Interprets the outcome of reading the configuration file: a
    /// missing file yields an empty configuration, everything else
    /// passes through.
    pub fn load(read: Option<Result<AppConfig, MosaicError>>) -> (r: Result<AppConfig, MosaicError>)
        ensures
            read is None ==> (r matches Ok(c) && c.current_vault_path is None
                && c.current_canvas_path is None && c.recent_vaults@ == Seq::<RecentVault>::empty()),
            read matches Some(outcome) ==> r == outcome,
    {
        match read {
            None => Ok(AppConfig::new()),
            Some(outcome) => outcome,
        }
    }
}

} // verus!

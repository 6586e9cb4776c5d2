//! The single-record session state: the last opened vault and canvas.

use vstd::prelude::*;
use crate::clock::now_iso;
use crate::error::MosaicError;

verus! {

fn default_version() -> (r: String)
    ensures
        r@ == "1.0.0"@,
{
    "1.0.0".to_owned()
}

/// Application-level state persisted as one record.
#[derive(Debug)]
pub struct AppState {
    /// UUID of the last opened vault, if any.
    pub last_vault_id: Option<String>,
    /// UUID of the last opened canvas, if any.
    pub last_canvas_id: Option<String>,
    /// When the record was last updated (RFC 3339).
    pub updated_at: String,
    /// Schema version tag of this record.
    pub version: String,
}

impl AppState {
    /// A fresh record: nothing opened yet.
    pub fn new() -> (r: Self)
        ensures
            r.last_vault_id is None,
            r.last_canvas_id is None,
            r.version@ == "1.0.0"@,
    {
        AppState {
            last_vault_id: None,
            last_canvas_id: None,
            updated_at: now_iso(),
            version: default_version(),
        }
    }

    /// Advances the modification stamp; every other field is untouched.
    pub fn touch(&mut self)
        ensures
            final(self).last_vault_id == old(self).last_vault_id,
            final(self).last_canvas_id == old(self).last_canvas_id,
            final(self).version@ == old(self).version@,
    {
        self.updated_at = now_iso();
    }

    /// Points the record at this vault and stamps it.
    pub fn set_last_vault(&mut self, vault_id: String)
        ensures
            final(self).last_vault_id matches Some(v) && v@ == vault_id@,
            final(self).last_canvas_id == old(self).last_canvas_id,
            final(self).version@ == old(self).version@,
    {
        self.last_vault_id = Some(vault_id);
        self.touch();
    }

    /// Points the record at this canvas and stamps it.
    pub fn set_last_canvas(&mut self, canvas_id: String)
        ensures
            final(self).last_canvas_id matches Some(c) && c@ == canvas_id@,
            final(self).last_vault_id == old(self).last_vault_id,
            final(self).version@ == old(self).version@,
    {
        self.last_canvas_id = Some(canvas_id);
        self.touch();
    }

    /// Overwrites only the fields actually supplied: a `None` argument
    /// leaves the stored value untouched. Stamps the record either way.
    pub fn set_last_opened(&mut self, vault_id: Option<String>, canvas_id: Option<String>)
        ensures
            vault_id is Some ==> final(self).last_vault_id == vault_id,
            vault_id is None ==> final(self).last_vault_id == old(self).last_vault_id,
            canvas_id is Some ==> final(self).last_canvas_id == canvas_id,
            canvas_id is None ==> final(self).last_canvas_id == old(self).last_canvas_id,
            final(self).version@ == old(self).version@,
    {
        if vault_id.is_some() {
            self.last_vault_id = vault_id;
        }
        if canvas_id.is_some() {
            self.last_canvas_id = canvas_id;
        }
        self.touch();
    }

    /// Interprets the outcome of reading the state file: a missing file
    /// yields a fresh record, everything else passes through.
    pub fn load(read: Option<Result<AppState, MosaicError>>) -> (r: Result<AppState, MosaicError>)
        ensures
            read is None ==> (r matches Ok(s) && s.last_vault_id is None && s.last_canvas_id is None
                && s.version@ == "1.0.0"@),
            read matches Some(outcome) ==> r == outcome,
    {
        match read {
            None => Ok(AppState::new()),
            Some(outcome) => outcome,
        }
    }
}

} // verus!

//! Vault metadata records.

use vstd::prelude::*;
use vstd::string::*;
use crate::clock::now_iso;

verus! {

fn default_version() -> (r: String)
    ensures
        r@ == "2.0.0"@,
{
    "2.0.0".to_owned()
}

/// Vault metadata persisted in the vault's metadata file.
#[derive(Debug)]
pub struct VaultMeta {
    /// Unique identifier (UUID), immutable once assigned.
    pub id: String,
    /// Display name.
    pub name: String,
    /// Free-text description, empty by default.
    pub description: String,
    /// When the vault was created (RFC 3339).
    pub created_at: String,
    /// When the vault was last modified (RFC 3339).
    pub updated_at: String,
    /// Schema version tag.
    pub version: String,
}

impl VaultMeta {
    /// A fresh record: empty description, current version, created and
    /// updated stamps equal.
    pub fn new(id: String, name: String) -> (r: Self)
        ensures
            r.id@ == id@,
            r.name@ == name@,
            r.description@ == Seq::<char>::empty(),
            r.created_at@ == r.updated_at@,
            r.version@ == "2.0.0"@,
    {
        let now = now_iso();
        VaultMeta {
            id,
            name,
            description: String::new(),
            created_at: now.clone(),
            updated_at: now,
            version: default_version(),
        }
    }

    pub fn with_description(self, description: String) -> (r: Self)
        ensures
            r.id@ == self.id@,
            r.name@ == self.name@,
            r.description@ == description@,
            r.created_at@ == self.created_at@,
            r.updated_at@ == self.updated_at@,
            r.version@ == self.version@,
    {
        VaultMeta { description, ..self }
    }

    /// Advances the modification stamp; every other field is untouched.
    pub fn touch(&mut self)
        ensures
            final(self).id@ == old(self).id@,
            final(self).name@ == old(self).name@,
            final(self).description@ == old(self).description@,
            final(self).created_at@ == old(self).created_at@,
            final(self).version@ == old(self).version@,
    {
        self.updated_at = now_iso();
    }
}

/// Vault info composed for the caller.
#[derive(Debug)]
pub struct VaultInfo {
    pub id: String,
    pub path: String,
    pub name: String,
    pub description: String,
    pub created_at: String,
    pub updated_at: String,
    pub canvas_count: usize,
}

impl VaultInfo {
    /// The info mirrors the metadata record exactly.
    pub open spec fn reflects(self, meta: VaultMeta, path: Seq<char>, count: int) -> bool {
        &&& self.id@ == meta.id@
        &&& self.path@ == path
        &&& self.name@ == meta.name@
        &&& self.description@ == meta.description@
        &&& self.created_at@ == meta.created_at@
        &&& self.updated_at@ == meta.updated_at@
        &&& self.canvas_count == count
    }

    pub fn from_meta(meta: &VaultMeta, path: String, canvas_count: usize) -> (r: Self)
        ensures
            r.reflects(*meta, path@, canvas_count as int),
    {
        VaultInfo {
            id: meta.id.clone(),
            path,
            name: meta.name.clone(),
            description: meta.description.clone(),
            created_at: meta.created_at.clone(),
            updated_at: meta.updated_at.clone(),
            canvas_count,
        }
    }
}

/// Lightweight vault reference for lists.
#[derive(Debug)]
pub struct VaultRef {
    pub id: String,
    pub name: String,
    pub path: String,
}

impl VaultRef {
    pub fn of_info(info: &VaultInfo) -> (r: Self)
        ensures
            r.id@ == info.id@,
            r.name@ == info.name@,
            r.path@ == info.path@,
    {
        VaultRef { id: info.id.clone(), name: info.name.clone(), path: info.path.clone() }
    }
}

} // verus!

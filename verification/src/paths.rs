//! The fixed file layout of a vault or canvas directory.
//!
//! A path here is a plain string; joining appends `/` and a component.
//! These structs never touch the disk: they only say where each file of
//! an entity lives, and which directories a creation has to make.

use vstd::prelude::*;
use crate::strutil::join_path;

verus! {

/// The path of the entry `name` inside the directory `root`.
pub open spec fn spec_join(root: Seq<char>, name: Seq<char>) -> Seq<char> {
    root + "/"@ + name
}

/// Standard paths within a vault.
#[derive(Debug)]
pub struct VaultPaths {
    pub root: String,
    pub vault_json: String,
    pub canvases: String,
    pub assets: String,
    pub attachments: String,
    pub config: String,
}

impl VaultPaths {
    /// All fields follow from the root.
    pub open spec fn wf(self) -> bool {
        &&& self.vault_json@ == spec_join(self.root@, "vault.json"@)
        &&& self.canvases@ == spec_join(self.root@, "canvases"@)
        &&& self.assets@ == spec_join(self.root@, "assets"@)
        &&& self.attachments@ == spec_join(self.root@, "attachments"@)
        &&& self.config@ == spec_join(self.root@, ".mosaicflow"@)
    }

    pub fn from_root(root: &String) -> (r: Self)
        ensures
            r.root@ == root@,
            r.wf(),
    {
        VaultPaths {
            root: root.clone(),
            vault_json: join_path(root.as_str(), "vault.json"),
            canvases: join_path(root.as_str(), "canvases"),
            assets: join_path(root.as_str(), "assets"),
            attachments: join_path(root.as_str(), "attachments"),
            config: join_path(root.as_str(), ".mosaicflow"),
        }
    }

    /// The directories that creating a vault lays down, root first.
    pub fn dirs_to_create(&self) -> (r: Vec<String>)
        ensures
            r@.len() == 5,
            r@[0]@ == self.root@,
            r@[1]@ == self.canvases@,
            r@[2]@ == self.assets@,
            r@[3]@ == self.attachments@,
            r@[4]@ == self.config@,
    {
        let mut v: Vec<String> = Vec::new();
        v.push(self.root.clone());
        v.push(self.canvases.clone());
        v.push(self.assets.clone());
        v.push(self.attachments.clone());
        v.push(self.config.clone());
        v
    }
}

/// Standard paths within a canvas.
#[derive(Debug)]
pub struct CanvasPaths {
    pub root: String,
    pub mosaic: String,
    pub meta_json: String,
    pub state_json: String,
    pub workspace_json: String,
    pub nodes: String,
    pub edges: String,
    pub images: String,
    pub attachments: String,
}

impl CanvasPaths {
    /// All fields follow from the root.
    pub open spec fn wf(self) -> bool {
        &&& self.mosaic@ == spec_join(self.root@, ".mosaic"@)
        &&& self.meta_json@ == spec_join(spec_join(self.root@, ".mosaic"@), "meta.json"@)
        &&& self.state_json@ == spec_join(spec_join(self.root@, ".mosaic"@), "state.json"@)
        &&& self.workspace_json@ == spec_join(self.root@, "workspace.json"@)
        &&& self.nodes@ == spec_join(self.root@, "nodes"@)
        &&& self.edges@ == spec_join(self.root@, "edges"@)
        &&& self.images@ == spec_join(self.root@, "images"@)
        &&& self.attachments@ == spec_join(self.root@, "attachments"@)
    }

    pub fn from_root(root: &String) -> (r: Self)
        ensures
            r.root@ == root@,
            r.wf(),
    {
        let mosaic = join_path(root.as_str(), ".mosaic");
        CanvasPaths {
            root: root.clone(),
            meta_json: join_path(mosaic.as_str(), "meta.json"),
            state_json: join_path(mosaic.as_str(), "state.json"),
            mosaic,
            workspace_json: join_path(root.as_str(), "workspace.json"),
            nodes: join_path(root.as_str(), "nodes"),
            edges: join_path(root.as_str(), "edges"),
            images: join_path(root.as_str(), "images"),
            attachments: join_path(root.as_str(), "attachments"),
        }
    }

    /// The path of the legacy marker file in this canvas directory.
    pub fn legacy_json(&self) -> (r: String)
        ensures
            r@ == spec_join(self.root@, "canvas.json"@),
    {
        join_path(self.root.as_str(), "canvas.json")
    }

    /// The directories that creating a canvas lays down, root first.
    pub fn dirs_to_create(&self) -> (r: Vec<String>)
        ensures
            r@.len() == 6,
            r@[0]@ == self.root@,
            r@[1]@ == self.mosaic@,
            r@[2]@ == self.nodes@,
            r@[3]@ == self.edges@,
            r@[4]@ == self.images@,
            r@[5]@ == self.attachments@,
    {
        let mut v: Vec<String> = Vec::new();
        v.push(self.root.clone());
        v.push(self.mosaic.clone());
        v.push(self.nodes.clone());
        v.push(self.edges.clone());
        v.push(self.images.clone());
        v.push(self.attachments.clone());
        v
    }
}

} // verus!

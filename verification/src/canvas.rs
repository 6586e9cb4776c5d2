//! Canvas metadata records and the per-canvas UI state.
//!
//! Viewport coordinates and zoom are persisted as IEEE-754 bit patterns
//! (`u64`), so that the store carries them through untouched; the caller
//! converts to and from floating point at the boundary.

use vstd::prelude::*;
use vstd::string::*;
use crate::clock::now_iso;
use crate::strutil::copy_strings;

verus! {

fn default_version() -> (r: String)
    ensures
        r@ == "2.0.0"@,
{
    "2.0.0".to_owned()
}

fn default_canvas_mode() -> (r: String)
    ensures
        r@ == "select"@,
{
    "select".to_owned()
}

/// Bit pattern of the floating-point value zero.
pub const COORD_ZERO_BITS: u64 = 0;

/// Bit pattern of the floating-point value one, the default zoom.
pub const ZOOM_ONE_BITS: u64 = 0x3FF0000000000000;

/// Whether a tag list contains the given text.
pub open spec fn has_tag(tags: Seq<Seq<char>>, tag: Seq<char>) -> bool {
    exists|i: int| 0 <= i < tags.len() && tags[i] == tag
}

/// Canvas metadata persisted in the canvas's metadata file.
#[derive(Debug)]
pub struct CanvasMeta {
    /// Unique identifier (UUID), immutable once assigned.
    pub id: String,
    /// Owning vault's UUID; a back-reference, not enforced.
    pub vault_id: String,
    /// Display name.
    pub name: String,
    /// Free-text description, empty by default.
    pub description: String,
    /// Tags for organization; insertion order preserved, no duplicates
    /// introduced by `add_tag`.
    pub tags: Vec<String>,
    /// When the canvas was created (RFC 3339).
    pub created_at: String,
    /// When the canvas was last modified (RFC 3339).
    pub updated_at: String,
    /// Schema version tag.
    pub version: String,
}

impl CanvasMeta {
    /// A fresh record: empty description and tags, current version,
    /// created and updated stamps equal.
    pub fn new(id: String, vault_id: String, name: String) -> (r: Self)
        ensures
            r.id@ == id@,
            r.vault_id@ == vault_id@,
            r.name@ == name@,
            r.description@ == Seq::<char>::empty(),
            r.tags.deep_view() == Seq::<Seq<char>>::empty(),
            r.created_at@ == r.updated_at@,
            r.version@ == "2.0.0"@,
    {
        let now = now_iso();
        let r = CanvasMeta {
            id,
            vault_id,
            name,
            description: String::new(),
            tags: Vec::new(),
            created_at: now.clone(),
            updated_at: now,
            version: default_version(),
        };
        proof {
            assert(r.tags.deep_view() =~= Seq::<Seq<char>>::empty());
        }
        r
    }

    pub fn with_description(self, description: String) -> (r: Self)
        ensures
            r.id@ == self.id@,
            r.vault_id@ == self.vault_id@,
            r.name@ == self.name@,
            r.description@ == description@,
            r.tags.deep_view() == self.tags.deep_view(),
            r.created_at@ == self.created_at@,
            r.updated_at@ == self.updated_at@,
            r.version@ == self.version@,
    {
        CanvasMeta { description, ..self }
    }

    pub fn with_tags(self, tags: Vec<String>) -> (r: Self)
        ensures
            r.id@ == self.id@,
            r.vault_id@ == self.vault_id@,
            r.name@ == self.name@,
            r.description@ == self.description@,
            r.tags.deep_view() == tags.deep_view(),
            r.created_at@ == self.created_at@,
            r.updated_at@ == self.updated_at@,
            r.version@ == self.version@,
    {
        CanvasMeta { tags, ..self }
    }

    /// Advances the modification stamp; every other field is untouched.
    pub fn touch(&mut self)
        ensures
            final(self).id@ == old(self).id@,
            final(self).vault_id@ == old(self).vault_id@,
            final(self).name@ == old(self).name@,
            final(self).description@ == old(self).description@,
            final(self).tags.deep_view() == old(self).tags.deep_view(),
            final(self).created_at@ == old(self).created_at@,
            final(self).version@ == old(self).version@,
    {
        self.updated_at = now_iso();
    }

    /// Appends the tag unless it is already present; a change also
    /// advances the modification stamp.
    pub fn add_tag(&mut self, tag: String)
        ensures
            has_tag(old(self).tags.deep_view(), tag@) ==> *final(self) == *old(self),
            !has_tag(old(self).tags.deep_view(), tag@) ==> {
                &&& final(self).tags.deep_view() == old(self).tags.deep_view().push(tag@)
                &&& final(self).id@ == old(self).id@
                &&& final(self).vault_id@ == old(self).vault_id@
                &&& final(self).name@ == old(self).name@
                &&& final(self).description@ == old(self).description@
                &&& final(self).created_at@ == old(self).created_at@
                &&& final(self).version@ == old(self).version@
            },
    {
        let mut i: usize = 0;
        while i < self.tags.len()
            invariant
                *self == *old(self),
                i <= self.tags@.len(),
                forall|j: int| 0 <= j < i ==> self.tags.deep_view()[j] != tag@,
            decreases self.tags@.len() - i,
        {
            if self.tags[i].eq(&tag) {
                proof {
                    assert(self.tags.deep_view()[i as int] == self.tags@[i as int]@);
                    assert(has_tag(self.tags.deep_view(), tag@));
                }
                return ;
            }
            i = i + 1;
        }
        self.tags.push(tag);
        proof {
            assert(self.tags.deep_view() =~= old(self).tags.deep_view().push(tag@));
        }
        self.touch();
    }

    /// Removes the first occurrence of the tag, if any; a change also
    /// advances the modification stamp.
    pub fn remove_tag(&mut self, tag: &str)
        ensures
            !has_tag(old(self).tags.deep_view(), tag@) ==> *final(self) == *old(self),
            has_tag(old(self).tags.deep_view(), tag@) ==> exists|i: int|
                {
                    &&& 0 <= i < old(self).tags.deep_view().len()
                    &&& old(self).tags.deep_view()[i] == tag@
                    &&& forall|j: int| 0 <= j < i ==> old(self).tags.deep_view()[j] != tag@
                    &&& final(self).tags.deep_view() == old(self).tags.deep_view().remove(i)
                },
            final(self).id@ == old(self).id@,
            final(self).vault_id@ == old(self).vault_id@,
            final(self).name@ == old(self).name@,
            final(self).description@ == old(self).description@,
            final(self).created_at@ == old(self).created_at@,
            final(self).version@ == old(self).version@,
    {
        let tag_owned = tag.to_owned();
        let mut i: usize = 0;
        while i < self.tags.len()
            invariant
                i <= self.tags@.len(),
                *self == *old(self),
                tag_owned@ == tag@,
                forall|j: int| 0 <= j < i ==> self.tags.deep_view()[j] != tag@,
            decreases self.tags@.len() - i,
        {
            if self.tags[i].eq(&tag_owned) {
                proof {
                    assert(self.tags.deep_view()[i as int] == self.tags@[i as int]@);
                    assert(has_tag(self.tags.deep_view(), tag@));
                }
                self.tags.remove(i);
                proof {
                    assert(self.tags.deep_view() =~= old(self).tags.deep_view().remove(i as int));
                }
                self.touch();
                return ;
            }
            i = i + 1;
        }
    }
}

/// Canvas info composed for the caller.
#[derive(Debug)]
pub struct CanvasInfo {
    pub id: String,
    pub vault_id: String,
    pub name: String,
    pub description: String,
    pub path: String,
    pub created_at: String,
    pub updated_at: String,
    pub tags: Vec<String>,
}

impl CanvasInfo {
    /// The info mirrors the metadata record exactly.
    pub open spec fn reflects(self, meta: CanvasMeta, path: Seq<char>) -> bool {
        &&& self.id@ == meta.id@
        &&& self.vault_id@ == meta.vault_id@
        &&& self.name@ == meta.name@
        &&& self.description@ == meta.description@
        &&& self.path@ == path
        &&& self.created_at@ == meta.created_at@
        &&& self.updated_at@ == meta.updated_at@
        &&& self.tags.deep_view() == meta.tags.deep_view()
    }

    pub fn from_meta(meta: &CanvasMeta, path: String) -> (r: Self)
        ensures
            r.reflects(*meta, path@),
    {
        CanvasInfo {
            id: meta.id.clone(),
            vault_id: meta.vault_id.clone(),
            name: meta.name.clone(),
            description: meta.description.clone(),
            path,
            created_at: meta.created_at.clone(),
            updated_at: meta.updated_at.clone(),
            tags: copy_strings(&meta.tags),
        }
    }
}

/// Lightweight canvas reference for lists.
#[derive(Debug)]
pub struct CanvasRef {
    pub id: String,
    pub vault_id: String,
    pub name: String,
    pub path: String,
}

impl CanvasRef {
    pub fn of_info(info: &CanvasInfo) -> (r: Self)
        ensures
            r.id@ == info.id@,
            r.vault_id@ == info.vault_id@,
            r.name@ == info.name@,
            r.path@ == info.path@,
    {
        CanvasRef {
            id: info.id.clone(),
            vault_id: info.vault_id.clone(),
            name: info.name.clone(),
            path: info.path.clone(),
        }
    }
}

/// Viewport position and zoom, as IEEE-754 bit patterns.
#[derive(Debug)]
pub struct ViewportState {
    pub x: u64,
    pub y: u64,
    pub zoom: u64,
}

impl Default for ViewportState {
    /// Origin at zero, zoom at one.
    fn default() -> (r: Self)
        ensures
            r.x == COORD_ZERO_BITS,
            r.y == COORD_ZERO_BITS,
            r.zoom == ZOOM_ONE_BITS,
    {
        ViewportState { x: COORD_ZERO_BITS, y: COORD_ZERO_BITS, zoom: ZOOM_ONE_BITS }
    }
}

/// Canvas UI state persisted beside the canvas metadata.
#[derive(Debug)]
pub struct CanvasUIState {
    /// Viewport position and zoom.
    pub viewport: ViewportState,
    /// Currently selected node ids.
    pub selected_nodes: Vec<String>,
    /// Currently selected edge ids.
    pub selected_edges: Vec<String>,
    /// Canvas interaction mode.
    pub canvas_mode: String,
    /// Last modification stamp; empty until first saved.
    pub updated_at: String,
}

/// What a UI state fresh out of the box holds.
pub open spec fn is_default_ui_state(s: CanvasUIState) -> bool {
    &&& s.viewport.x == COORD_ZERO_BITS
    &&& s.viewport.y == COORD_ZERO_BITS
    &&& s.viewport.zoom == ZOOM_ONE_BITS
    &&& s.selected_nodes.deep_view() == Seq::<Seq<char>>::empty()
    &&& s.selected_edges.deep_view() == Seq::<Seq<char>>::empty()
    &&& s.canvas_mode@ == "select"@
    &&& s.updated_at@.len() == 0
}

impl Default for CanvasUIState {
    /// Default viewport, nothing selected, mode `select`.
    fn default() -> (r: Self)
        ensures
            is_default_ui_state(r),
    {
        let r = CanvasUIState {
            viewport: ViewportState::default(),
            selected_nodes: Vec::new(),
            selected_edges: Vec::new(),
            canvas_mode: default_canvas_mode(),
            updated_at: String::new(),
        };
        proof {
            assert(r.selected_nodes.deep_view() =~= Seq::<Seq<char>>::empty());
            assert(r.selected_edges.deep_view() =~= Seq::<Seq<char>>::empty());
        }
        r
    }
}

impl CanvasUIState {
    /// Advances the modification stamp; every other field is untouched.
    pub fn touch(&mut self)
        ensures
            final(self).viewport == old(self).viewport,
            final(self).selected_nodes.deep_view() == old(self).selected_nodes.deep_view(),
            final(self).selected_edges.deep_view() == old(self).selected_edges.deep_view(),
            final(self).canvas_mode@ == old(self).canvas_mode@,
    {
        self.updated_at = now_iso();
    }
}

} // verus!

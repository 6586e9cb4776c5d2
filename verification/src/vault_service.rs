//! Vault lifecycle operations.
//!
//! Each operation takes the outcome of reading the vault's metadata
//! file (`None` when the file does not exist) together with whatever
//! else the caller observed, and returns the records to write and the
//! info to hand back.

use vstd::prelude::*;
use vstd::string::*;
use crate::error::{ErrorCode, MosaicError};
use crate::ids::generate_uuid;
use crate::vault::{VaultMeta, VaultInfo};
use crate::paths::VaultPaths;
use crate::canvas_service::{CanvasService, CanvasCreatePlan, canvas_create_ok};

verus! {

/// Everything a vault creation lays down: the directory layout, the
/// vault record, the default canvas, and the composed info.
#[derive(Debug)]
pub struct VaultCreatePlan {
    /// The file layout rooted at the new vault.
    pub paths: VaultPaths,
    /// The metadata record to write.
    pub meta: VaultMeta,
    /// The default canvas created inside the fresh vault.
    pub canvas: CanvasCreatePlan,
    /// The composed info; it counts exactly the one default canvas.
    pub info: VaultInfo,
}

/// What a vault creation guarantees.
pub open spec fn vault_create_ok(
    p: VaultCreatePlan,
    path: Seq<char>,
    name: Seq<char>,
    description: Option<Seq<char>>,
    existing: Seq<Seq<char>>,
) -> bool {
    &&& p.paths.root@ == path
    &&& p.paths.wf()
    &&& p.meta.id@.len() == 36
    &&& p.meta.name@ == name
    &&& p.meta.description@ == (match description {
        Some(d) => d,
        None => Seq::<char>::empty(),
    })
    &&& p.meta.version@ == "2.0.0"@
    &&& p.meta.created_at@ == p.meta.updated_at@
    &&& canvas_create_ok(p.canvas, p.paths.canvases@, p.meta.id@, "Untitled"@, None, existing)
    &&& p.info.reflects(p.meta, path, 1)
}

#[derive(Debug)]
pub struct VaultService;

impl VaultService {
    /// Plans the creation of a vault at `path`. `already_exists` is
    /// whether a current-schema metadata file is present there;
    /// `existing` holds the entries already inside the canvases
    /// directory, for the default canvas's folder name.
    pub fn create(
        path: &String,
        name: &str,
        description: Option<&str>,
        already_exists: bool,
        existing: &Vec<String>,
    ) -> (r: Result<VaultCreatePlan, MosaicError>)
        ensures
            already_exists ==> (r matches Err(e) && e.code == ErrorCode::AlreadyExists),
            !already_exists ==> (r matches Ok(p) && vault_create_ok(
                p,
                path@,
                name@,
                (match description {
                    Some(d) => Some(d@),
                    None => None,
                }),
                existing.deep_view(),
            )),
    {
        if already_exists {
            return Err(MosaicError::already_exists("Vault"));
        }
        let paths = VaultPaths::from_root(path);
        let vault_id = generate_uuid();
        let mut meta = VaultMeta::new(vault_id, name.to_owned());
        if let Some(d) = description {
            meta = meta.with_description(d.to_owned());
        }
        let canvas = CanvasService::create(&paths.canvases, meta.id.as_str(), "Untitled", None, existing);
        let info = VaultInfo::from_meta(&meta, path.clone(), 1);
        Ok(VaultCreatePlan { paths, meta, canvas, info })
    }

    /// Opens a vault: the stored record composed with the observed
    /// canvas count, or why it could not be read.
    pub fn open(
        path: &String,
        meta_read: Option<Result<VaultMeta, MosaicError>>,
        canvas_count: usize,
    ) -> (r: Result<VaultInfo, MosaicError>)
        ensures
            meta_read is None ==> (r matches Err(e) && e.code == ErrorCode::VaultNotFound),
            meta_read matches Some(Err(e)) ==> (r matches Err(e2) && e2 == e),
            meta_read matches Some(Ok(m)) ==> (r matches Ok(info) && info.reflects(
                m,
                path@,
                canvas_count as int,
            )),
    {
        match meta_read {
            None => Err(MosaicError::vault_not_found(path.as_str())),
            Some(Err(e)) => Err(e),
            Some(Ok(m)) => Ok(VaultInfo::from_meta(&m, path.clone(), canvas_count)),
        }
    }

    /// Plans a vault rename: the record to write back carries the new
    /// name and a fresh stamp; the directory itself is never moved.
    pub fn rename(
        path: &String,
        meta_read: Option<Result<VaultMeta, MosaicError>>,
        new_name: &str,
        canvas_count: usize,
    ) -> (r: Result<(VaultMeta, VaultInfo), MosaicError>)
        ensures
            meta_read is None ==> (r matches Err(e) && e.code == ErrorCode::VaultNotFound),
            meta_read matches Some(Err(e)) ==> (r matches Err(e2) && e2 == e),
            meta_read matches Some(Ok(m)) ==> (r matches Ok((m2, info)) && {
                &&& m2.id@ == m.id@
                &&& m2.name@ == new_name@
                &&& m2.description@ == m.description@
                &&& m2.created_at@ == m.created_at@
                &&& m2.version@ == m.version@
                &&& info.reflects(m2, path@, canvas_count as int)
            }),
    {
        let mut meta = match meta_read {
            None => {
                return Err(MosaicError::vault_not_found(path.as_str()));
            },
            Some(Err(e)) => {
                return Err(e);
            },
            Some(Ok(m)) => m,
        };
        meta.name = new_name.to_owned();
        meta.touch();
        let info = VaultInfo::from_meta(&meta, path.clone(), canvas_count);
        Ok((meta, info))
    }

    /// Plans a description update: the record to write back carries the
    /// new text and a fresh stamp.
    pub fn update_description(
        path: &String,
        meta_read: Option<Result<VaultMeta, MosaicError>>,
        description: &str,
        canvas_count: usize,
    ) -> (r: Result<(VaultMeta, VaultInfo), MosaicError>)
        ensures
            meta_read is None ==> (r matches Err(e) && e.code == ErrorCode::VaultNotFound),
            meta_read matches Some(Err(e)) ==> (r matches Err(e2) && e2 == e),
            meta_read matches Some(Ok(m)) ==> (r matches Ok((m2, info)) && {
                &&& m2.id@ == m.id@
                &&& m2.name@ == m.name@
                &&& m2.description@ == description@
                &&& m2.created_at@ == m.created_at@
                &&& m2.version@ == m.version@
                &&& info.reflects(m2, path@, canvas_count as int)
            }),
    {
        let mut meta = match meta_read {
            None => {
                return Err(MosaicError::vault_not_found(path.as_str()));
            },
            Some(Err(e)) => {
                return Err(e);
            },
            Some(Ok(m)) => m,
        };
        meta.description = description.to_owned();
        meta.touch();
        let info = VaultInfo::from_meta(&meta, path.clone(), canvas_count);
        Ok((meta, info))
    }

    /// Like `open`, but an absent metadata file yields `None` instead
    /// of a failure.
    pub fn get_info(
        path: &String,
        meta_read: Option<Result<VaultMeta, MosaicError>>,
        canvas_count: usize,
    ) -> (r: Result<Option<VaultInfo>, MosaicError>)
        ensures
            meta_read is None ==> (r matches Ok(o) && o is None),
            meta_read matches Some(Err(e)) ==> (r matches Err(e2) && e2 == e),
            meta_read matches Some(Ok(m)) ==> (r matches Ok(o) && o matches Some(info)
                && info.reflects(m, path@, canvas_count as int)),
    {
        match meta_read {
            None => Ok(None),
            Some(Err(e)) => Err(e),
            Some(Ok(m)) => Ok(Some(VaultInfo::from_meta(&m, path.clone(), canvas_count))),
        }
    }

    /// The vault's id out of a metadata read; an absent file yields
    /// `None`.
    pub fn get_vault_id(meta_read: Option<Result<VaultMeta, MosaicError>>) -> (r: Result<
        Option<String>,
        MosaicError,
    >)
        ensures
            meta_read is None ==> (r matches Ok(o) && o is None),
            meta_read matches Some(Err(e)) ==> (r matches Err(e2) && e2 == e),
            meta_read matches Some(Ok(m)) ==> (r matches Ok(o) && o matches Some(id) && id@
                == m.id@),
    {
        match meta_read {
            None => Ok(None),
            Some(Err(e)) => Err(e),
            Some(Ok(m)) => Ok(Some(m.id)),
        }
    }
}

/// Creating a vault and then opening the record it wrote returns an
/// info with the same id, name and description: both infos mirror one
/// and the same metadata record.
pub proof fn lemma_create_then_open(
    p: VaultCreatePlan,
    path: Seq<char>,
    name: Seq<char>,
    description: Option<Seq<char>>,
    existing: Seq<Seq<char>>,
    reopened: VaultInfo,
    canvas_count: int,
)
    requires
        vault_create_ok(p, path, name, description, existing),
        reopened.reflects(p.meta, path, canvas_count),
    ensures
        reopened.id@ == p.info.id@,
        reopened.name@ == p.info.name@,
        reopened.description@ == p.info.description@,
        reopened.name@ == name,
{
}

} // verus!

//! The migration engine: upgrades legacy on-disk metadata to the
//! current schema.
//!
//! Vault migration rewrites the existing document in place: it injects a
//! fresh id and an empty description where they are absent, and stamps
//! the current version and a new update time; every other field of the
//! document is preserved. Canvas migration composes a fresh
//! current-schema record from whatever the legacy file offers, minting
//! placeholder identifiers rather than failing when a reference cannot
//! be recovered.
//!
//! The caller reads and writes the files; the functions here take the
//! file contents and return what must be written back.

use vstd::prelude::*;
use vstd::string::*;
use crate::error::{ErrorCode, MosaicError};
use crate::clock::now_iso;
use crate::ids::generate_uuid;
use crate::jsondoc::{
    FieldProbe,
    FieldView,
    field_text,
    json_parses,
    json_doc_is_object,
    json_field,
    json_doc_probe,
    json_field_probe,
    json_set_string_field,
};
use crate::vault::{VaultMeta, VaultInfo};
use crate::canvas::{CanvasMeta, CanvasInfo};

verus! {

/// The outcome of a vault migration: the document to write back, and
/// the validated record, or the failure met while validating it. The
/// document is written either way, as the rewrite happens before
/// validation.
#[derive(Debug)]
pub struct VaultMigration {
    /// The rewritten document.
    pub new_text: String,
    /// The validated record and composed info, or why validation
    /// failed.
    pub outcome: Result<(VaultMeta, VaultInfo), MosaicError>,
}

/// The outcome of a canvas migration: the fresh record to write, and
/// whether a default UI state must be written beside it.
#[derive(Debug)]
pub struct CanvasMigration {
    /// The current-schema record to write.
    pub meta: CanvasMeta,
    /// Whether no UI-state file existed, so a default one is written.
    pub write_default_state: bool,
    /// The composed info.
    pub info: CanvasInfo,
}

/// The six top-level keys read and written here are pairwise distinct.
proof fn lemma_keys_distinct()
    ensures
        "id"@ != "name"@,
        "id"@ != "description"@,
        "id"@ != "created_at"@,
        "id"@ != "updated_at"@,
        "id"@ != "version"@,
        "name"@ != "description"@,
        "name"@ != "created_at"@,
        "name"@ != "updated_at"@,
        "name"@ != "version"@,
        "description"@ != "created_at"@,
        "description"@ != "updated_at"@,
        "description"@ != "version"@,
        "created_at"@ != "updated_at"@,
        "created_at"@ != "version"@,
        "updated_at"@ != "version"@,
{
    reveal_strlit("id");
    reveal_strlit("name");
    reveal_strlit("description");
    reveal_strlit("created_at");
    reveal_strlit("updated_at");
    reveal_strlit("version");
    assert("id"@.len() == 2);
    assert("name"@.len() == 4);
    assert("description"@.len() == 11);
    assert("created_at"@.len() == 10);
    assert("updated_at"@.len() == 10);
    assert("version"@.len() == 7);
    assert("created_at"@[0] == 'c' && "updated_at"@[0] == 'u');
}

/// How a migrated vault document relates to the legacy one: version and
/// update stamp overwritten, id and description injected exactly where
/// they were absent, name and creation stamp untouched.
pub open spec fn vault_migrated_text_ok(t: Seq<char>, new: Seq<char>) -> bool {
    &&& json_parses(new)
    &&& json_doc_is_object(new)
    &&& json_field(new, "version"@) == FieldView::Text("2.0.0"@)
    &&& json_field(t, "id"@) is Missing ==> (json_field(new, "id"@) matches FieldView::Text(i)
        && i.len() == 36)
    &&& !(json_field(t, "id"@) is Missing) ==> json_field(new, "id"@) == json_field(t, "id"@)
    &&& json_field(t, "description"@) is Missing ==> json_field(new, "description"@)
        == FieldView::Text(Seq::<char>::empty())
    &&& !(json_field(t, "description"@) is Missing) ==> json_field(new, "description"@)
        == json_field(t, "description"@)
    &&& json_field(new, "name"@) == json_field(t, "name"@)
    &&& json_field(new, "created_at"@) == json_field(t, "created_at"@)
}

/// Whether the migrated document carries text in every field the
/// current schema requires; exactly then does validation succeed.
pub open spec fn vault_doc_complete(new: Seq<char>) -> bool {
    &&& json_field(new, "id"@) is Text
    &&& json_field(new, "name"@) is Text
    &&& json_field(new, "description"@) is Text
    &&& json_field(new, "created_at"@) is Text
}

/// The validated record reads the migrated document exactly.
pub open spec fn vault_meta_matches_doc(m: VaultMeta, new: Seq<char>) -> bool {
    &&& FieldView::Text(m.id@) == json_field(new, "id"@)
    &&& FieldView::Text(m.name@) == json_field(new, "name"@)
    &&& FieldView::Text(m.description@) == json_field(new, "description"@)
    &&& FieldView::Text(m.created_at@) == json_field(new, "created_at"@)
    &&& FieldView::Text(m.updated_at@) == json_field(new, "updated_at"@)
    &&& m.version@ == "2.0.0"@
}

/// How a migrated canvas record relates to what was on disk. `legacy`
/// is the parsed legacy document's text when one was readable.
pub open spec fn canvas_migration_ok(
    path: Seq<char>,
    folder_name: Seq<char>,
    legacy: Option<Seq<char>>,
    vault_doc: Option<Seq<char>>,
    state_exists: bool,
    m: CanvasMigration,
) -> bool {
    &&& match legacy {
        Some(t) => {
            &&& (field_text(json_field(t, "id"@)) matches Some(i) ==> m.meta.id@ == i)
            &&& (field_text(json_field(t, "id"@)) is None ==> m.meta.id@.len() == 36)
            &&& (field_text(json_field(t, "name"@)) matches Some(n) ==> m.meta.name@ == n)
            &&& (field_text(json_field(t, "name"@)) is None ==> m.meta.name@ == "Untitled"@)
        },
        None => m.meta.id@.len() == 36 && m.meta.name@ == folder_name,
    }
    &&& match vault_doc {
        Some(v) => {
            &&& json_parses(v) ==> (field_text(json_field(v, "id"@)) matches Some(vid)
                ==> m.meta.vault_id@ == vid)
            &&& !(json_parses(v) && field_text(json_field(v, "id"@)) is Some)
                ==> m.meta.vault_id@.len() == 36
        },
        None => m.meta.vault_id@.len() == 36,
    }
    &&& m.meta.description@.len() == 0
    &&& m.meta.tags.deep_view() == Seq::<Seq<char>>::empty()
    &&& m.meta.version@ == "2.0.0"@
    &&& m.meta.created_at@ == m.meta.updated_at@
    &&& m.write_default_state == !state_exists
    &&& m.info.reflects(m.meta, path)
}

fn vault_outcome(
    path: &str,
    canvas_count: usize,
    fresh_id: Option<String>,
    id_probe: FieldProbe,
    name_probe: FieldProbe,
    desc_probe: FieldProbe,
    created_probe: FieldProbe,
    now: String,
) -> (r: Result<(VaultMeta, VaultInfo), MosaicError>)
    ensures
        r is Ok == {
            &&& (fresh_id is Some || id_probe@ is Text)
            &&& name_probe@ is Text
            &&& (desc_probe@ is Text || desc_probe@ is Missing)
            &&& created_probe@ is Text
        },
        r matches Ok((m, i)) ==> {
            &&& (fresh_id matches Some(u) ==> m.id@ == u@)
            &&& (fresh_id is None ==> FieldView::Text(m.id@) == id_probe@)
            &&& FieldView::Text(m.name@) == name_probe@
            &&& (desc_probe@ is Missing ==> m.description@ == Seq::<char>::empty())
            &&& (desc_probe@ is Text ==> FieldView::Text(m.description@) == desc_probe@)
            &&& FieldView::Text(m.created_at@) == created_probe@
            &&& m.updated_at@ == now@
            &&& m.version@ == "2.0.0"@
            &&& i.reflects(m, path@, canvas_count as int)
        },
        r matches Err(e) ==> e.code == ErrorCode::InvalidJson,
{
    let id_final: String = match fresh_id {
        Some(u) => u,
        None => match id_probe {
            FieldProbe::Text(s) => s,
            _ => {
                return Err(MosaicError::json_error("the id field is not a string"));
            },
        },
    };
    let name_final: String = match name_probe {
        FieldProbe::Text(s) => s,
        _ => {
            return Err(MosaicError::json_error("the name field is missing or not a string"));
        },
    };
    let desc_final: String = match desc_probe {
        FieldProbe::Text(s) => s,
        FieldProbe::Missing => String::new(),
        FieldProbe::NonText => {
            return Err(
                MosaicError::json_error("the description field is not a string"),
            );
        },
    };
    let created_final: String = match created_probe {
        FieldProbe::Text(s) => s,
        _ => {
            return Err(
                MosaicError::json_error("the created_at field is missing or not a string"),
            );
        },
    };
    let meta = VaultMeta {
        id: id_final,
        name: name_final,
        description: desc_final,
        created_at: created_final,
        updated_at: now,
        version: "2.0.0".to_owned(),
    };
    let info = VaultInfo::from_meta(&meta, path.to_owned(), canvas_count);
    Ok((meta, info))
}

#[derive(Debug)]
pub struct MigrationService;

impl MigrationService {
    /// Migrates a vault document to the current schema. Takes the
    /// outcome of reading the vault's metadata file (`None` when the
    /// file does not exist) and the canvas count the caller observed;
    /// returns the rewritten document and the validated record.
    pub fn migrate_vault(
        path: &String,
        text_read: Option<Result<String, MosaicError>>,
        canvas_count: usize,
    ) -> (r: Result<VaultMigration, MosaicError>)
        ensures
            text_read is None ==> (r matches Err(e) && e.code == ErrorCode::VaultNotFound),
            text_read matches Some(Err(e)) ==> r matches Err(e2) && e2 == e,
            text_read matches Some(Ok(t)) ==> {
                &&& !json_parses(t@) ==> (r matches Err(e) && e.code == ErrorCode::InvalidJson)
                &&& json_parses(t@) && !json_doc_is_object(t@) ==> (r matches Err(e) && e.code
                    == ErrorCode::InvalidFormat)
                &&& json_parses(t@) && json_doc_is_object(t@) ==> (r matches Ok(m) && {
                    &&& vault_migrated_text_ok(t@, m.new_text@)
                    &&& vault_doc_complete(m.new_text@) ==> (m.outcome matches Ok((meta, info))
                        && vault_meta_matches_doc(meta, m.new_text@) && info.reflects(
                        meta,
                        path@,
                        canvas_count as int,
                    ))
                    &&& !vault_doc_complete(m.new_text@) ==> (m.outcome matches Err(e) && e.code
                        == ErrorCode::InvalidJson)
                })
            },
    {
        let text = match text_read {
            None => {
                return Err(MosaicError::vault_not_found(path.as_str()));
            },
            Some(Err(e)) => {
                return Err(e);
            },
            Some(Ok(t)) => t,
        };
        match json_doc_probe(text.as_str()) {
            Err(msg) => {
                return Err(MosaicError::json_error(msg.as_str()));
            },
            Ok(false) => {
                return Err(
                    MosaicError::new(
                        ErrorCode::InvalidFormat,
                        "vault metadata is not a JSON object",
                    ),
                );
            },
            Ok(true) => {},
        }
        proof {
            lemma_keys_distinct();
        }
        let now = now_iso();
        let id_probe = json_field_probe(text.as_str(), "id");
        let name_probe = json_field_probe(text.as_str(), "name");
        let desc_probe = json_field_probe(text.as_str(), "description");
        let created_probe = json_field_probe(text.as_str(), "created_at");
        let mut fresh_id: Option<String> = None;
        let mut current = text;
        if matches!(id_probe, FieldProbe::Missing) {
            let u = generate_uuid();
            current = match json_set_string_field(current.as_str(), "id", u.as_str()) {
                Ok(t) => t,
                Err(m) => {
                    return Err(MosaicError::json_error(m.as_str()));
                },
            };
            fresh_id = Some(u);
        }
        if matches!(desc_probe, FieldProbe::Missing) {
            current = match json_set_string_field(current.as_str(), "description", "") {
                Ok(t) => t,
                Err(m) => {
                    return Err(MosaicError::json_error(m.as_str()));
                },
            };
        }
        current = match json_set_string_field(current.as_str(), "version", "2.0.0") {
            Ok(t) => t,
            Err(m) => {
                return Err(MosaicError::json_error(m.as_str()));
            },
        };
        current = match json_set_string_field(current.as_str(), "updated_at", now.as_str()) {
            Ok(t) => t,
            Err(m) => {
                return Err(MosaicError::json_error(m.as_str()));
            },
        };
        proof {
            reveal_strlit("");
            assert(""@ =~= Seq::<char>::empty());
        }
        let outcome = vault_outcome(
            path.as_str(),
            canvas_count,
            fresh_id,
            id_probe,
            name_probe,
            desc_probe,
            created_probe,
            now,
        );
        Ok(VaultMigration { new_text: current, outcome })
    }

    /// Migrates a canvas directory to the current schema. Takes the
    /// outcome of reading the legacy file (`None` when it does not
    /// exist), the directory's own name as the fallback display name,
    /// the owning vault's metadata text when readable, and whether a
    /// UI-state file already exists.
    pub fn migrate_canvas(
        path: &String,
        folder_name: &str,
        legacy_read: Option<Result<String, MosaicError>>,
        vault_doc: Option<String>,
        state_exists: bool,
    ) -> (r: Result<CanvasMigration, MosaicError>)
        ensures
            legacy_read matches Some(Err(e)) ==> r matches Err(e2) && e2 == e,
            legacy_read matches Some(Ok(t)) ==> {
                &&& !json_parses(t@) ==> (r matches Err(e) && e.code == ErrorCode::InvalidJson)
                &&& json_parses(t@) ==> (r matches Ok(m) && canvas_migration_ok(
                    path@,
                    folder_name@,
                    Some(t@),
                    (match vault_doc {
                        Some(v) => Some(v@),
                        None => None,
                    }),
                    state_exists,
                    m,
                ))
            },
            legacy_read is None ==> (r matches Ok(m) && canvas_migration_ok(
                path@,
                folder_name@,
                None,
                (match vault_doc {
                    Some(v) => Some(v@),
                    None => None,
                }),
                state_exists,
                m,
            )),
    {
        let vault_id = match Self::vault_id_from_doc(&vault_doc) {
            Some(vid) => vid,
            None => generate_uuid(),
        };
        let (canvas_id, name): (String, String) = match legacy_read {
            None => (generate_uuid(), folder_name.to_owned()),
            Some(Err(e)) => {
                return Err(e);
            },
            Some(Ok(t)) => {
                match json_doc_probe(t.as_str()) {
                    Err(msg) => {
                        return Err(MosaicError::json_error(msg.as_str()));
                    },
                    Ok(_) => {},
                }
                let id = match json_field_probe(t.as_str(), "id") {
                    FieldProbe::Text(s) => s,
                    _ => generate_uuid(),
                };
                let nm = match json_field_probe(t.as_str(), "name") {
                    FieldProbe::Text(s) => s,
                    _ => "Untitled".to_owned(),
                };
                (id, nm)
            },
        };
        let meta = CanvasMeta::new(canvas_id, vault_id, name);
        let info = CanvasInfo::from_meta(&meta, path.clone());
        Ok(CanvasMigration { meta, write_default_state: !state_exists, info })
    }

    /// The owning vault's id, read out of its metadata text; `None`
    /// when the text is absent, unparseable, or has no string id.
    fn vault_id_from_doc(vault_doc: &Option<String>) -> (r: Option<String>)
        ensures
            match vault_doc {
                Some(v) => {
                    &&& json_parses(v@) ==> (field_text(json_field(v@, "id"@)) matches Some(vid)
                        ==> (r matches Some(s) && s@ == vid))
                    &&& !(json_parses(v@) && field_text(json_field(v@, "id"@)) is Some)
                        ==> r is None
                },
                None => r is None,
            },
    {
        match vault_doc {
            None => None,
            Some(v) => {
                match json_doc_probe(v.as_str()) {
                    Err(_) => None,
                    Ok(_) => {
                        match json_field_probe(v.as_str(), "id") {
                            FieldProbe::Text(s) => Some(s),
                            _ => None,
                        }
                    },
                }
            },
        }
    }

    /// Whether the vault's metadata file still needs migration: its
    /// text is unreadable or unparseable, has no id field, or carries a
    /// version other than the current one.
    pub fn vault_needs_migration(text_read: Option<Result<String, MosaicError>>) -> (r: bool)
        ensures
            text_read matches Some(Ok(t)) ==> (json_parses(t@) ==> r == (json_field(t@, "id"@)
                is Missing || json_field(t@, "version"@) != FieldView::Text("2.0.0"@))),
            text_read matches Some(Ok(t)) ==> (!json_parses(t@) ==> r),
            text_read is None ==> r,
            text_read matches Some(Err(e)) ==> r,
    {
        match text_read {
            Some(Ok(t)) => {
                match json_doc_probe(t.as_str()) {
                    Err(_) => true,
                    Ok(_) => {
                        let id_missing = matches!(
                            json_field_probe(t.as_str(), "id"),
                            FieldProbe::Missing
                        );
                        let version_current = match json_field_probe(t.as_str(), "version") {
                            FieldProbe::Text(s) => crate::strutil::str_eq(s.as_str(), "2.0.0"),
                            _ => false,
                        };
                        id_missing || !version_current
                    },
                }
            },
            _ => true,
        }
    }

    /// Whether a canvas directory needs migration: no current-schema
    /// metadata file, but a legacy marker present.
    pub fn canvas_needs_migration(is_valid_v2: bool, is_valid_v1: bool) -> (r: bool)
        ensures
            r == (!is_valid_v2 && is_valid_v1),
    {
        !is_valid_v2 && is_valid_v1
    }
}

/// Migrating a vault document twice assigns the same id both times: the
/// first migration leaves the id in the document, and the second keeps
/// any id it finds; the version equals the current one after the first
/// migration.
pub proof fn lemma_vault_migration_idempotent_id(
    t: Seq<char>,
    new1: Seq<char>,
    meta1: VaultMeta,
    new2: Seq<char>,
    meta2: VaultMeta,
)
    requires
        vault_migrated_text_ok(t, new1),
        vault_meta_matches_doc(meta1, new1),
        vault_migrated_text_ok(new1, new2),
        vault_meta_matches_doc(meta2, new2),
    ensures
        meta2.id@ == meta1.id@,
        meta1.version@ == "2.0.0"@,
        json_field(new1, "version"@) == FieldView::Text("2.0.0"@),
{
    assert(json_field(new1, "id"@) == FieldView::Text(meta1.id@));
    assert(!(json_field(new1, "id"@) is Missing));
    assert(json_field(new2, "id"@) == json_field(new1, "id"@));
}

} // verus!

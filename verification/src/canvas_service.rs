//! Canvas lifecycle operations.
//!
//! Each operation takes what the caller observed on disk — file
//! contents, read outcomes, which entries a directory holds — and
//! returns the records to write and the info to hand back. Creating a
//! canvas resolves folder-name collisions by appending the first free
//! numeric suffix; opening falls back to migration when only a legacy
//! marker is present; listing opens every subdirectory, silently skips
//! the ones that fail, and sorts the survivors newest-first.

use vstd::prelude::*;
use vstd::string::*;
use vstd::seq_lib::*;
use vstd::set_lib::lemma_len_subset;
use crate::error::{ErrorCode, MosaicError};
use crate::ids::generate_uuid;
use crate::canvas::{CanvasMeta, CanvasInfo, CanvasUIState, is_default_ui_state};
use crate::workspace::{WorkspaceData, is_empty_document};
use crate::paths::{CanvasPaths, spec_join};
use crate::sanitize::{sanitize_name, sanitize_spec};
use crate::strutil::{
    contains_str,
    dec_chars,
    u64_to_dec,
    push_char,
    lex_le,
    str_lex_le,
    lemma_dec_chars_injective,
};
use crate::migration::{MigrationService, CanvasMigration, canvas_migration_ok};
use crate::jsondoc::json_parses;

verus! {

/// The folder name `base` with the numeric suffix `k`.
pub open spec fn suffixed_name(base: Seq<char>, k: nat) -> Seq<char> {
    base + seq!['_'] + dec_chars(k)
}

/// How a folder-name collision resolves: the base name itself when it
/// is free, otherwise the base with the first free numeric suffix,
/// counted from one.
pub open spec fn resolved_folder_name(
    base: Seq<char>,
    existing: Seq<Seq<char>>,
    r: Seq<char>,
) -> bool {
    if !existing.contains(base) {
        r == base
    } else {
        exists|k: nat|
            {
                &&& 1 <= k
                &&& r == suffixed_name(base, k)
                &&& !existing.contains(suffixed_name(base, k))
                &&& forall|j: nat| 1 <= j < k ==> existing.contains(suffixed_name(base, j))
            }
    }
}

proof fn lemma_suffixed_injective(base: Seq<char>, x: nat, y: nat)
    requires
        suffixed_name(base, x) == suffixed_name(base, y),
    ensures
        x == y,
{
    let sx = suffixed_name(base, x);
    let sy = suffixed_name(base, y);
    assert(sx.skip(base.len() as int + 1) =~= dec_chars(x));
    assert(sy.skip(base.len() as int + 1) =~= dec_chars(y));
    lemma_dec_chars_injective(x, y);
}

fn make_suffixed(base: &str, k: u64) -> (r: String)
    ensures
        r@ == suffixed_name(base@, k as nat),
{
    let mut s = base.to_owned();
    push_char(&mut s, '_');
    let digits = u64_to_dec(k);
    s.append(digits.as_str());
    proof {
        assert(s@ =~= base@ + seq!['_'] + dec_chars(k as nat));
    }
    s
}

/// Resolves a sanitized base name against the entries already present:
/// the base itself when free, else the first free `base_<k>` with `k`
/// counted up from one.
pub fn resolve_folder_name(base: String, existing: &Vec<String>) -> (r: String)
    ensures
        resolved_folder_name(base@, existing.deep_view(), r@),
{
    broadcast use vstd::seq_lib::seq_to_set_is_finite;
    broadcast use vstd::set::group_set_axioms;

    if !contains_str(existing, base.as_str()) {
        return base;
    }
    let ghost ex = existing.deep_view();
    let n = existing.len();
    proof {
        assert(ex.len() == existing@.len());
        let wb = choose|wb: int| 0 <= wb < ex.len() && ex[wb] == base@;
        assert(ex.len() >= 1);
    }
    let mut k: u64 = 1;
    loop
        invariant
            1 <= k,
            k <= ex.len(),
            ex.len() == n,
            ex == existing.deep_view(),
            ex.contains(base@),
            forall|j: nat| 1 <= j < k ==> ex.contains(suffixed_name(base@, j)),
        decreases ex.len() - k,
    {
        let candidate = make_suffixed(base.as_str(), k);
        if !contains_str(existing, candidate.as_str()) {
            proof {
                let kk = k as nat;
                assert(1 <= kk && candidate@ == suffixed_name(base@, kk) && !ex.contains(
                    suffixed_name(base@, kk),
                ) && (forall|j: nat| 1 <= j < kk ==> ex.contains(suffixed_name(base@, j))));
                assert(resolved_folder_name(base@, ex, candidate@));
            }
            return candidate;
        }
        proof {
            let names = Seq::<Seq<char>>::new(
                k as nat + 1,
                |j: int|
                    if j == 0 {
                        base@
                    } else {
                        suffixed_name(base@, j as nat)
                    },
            );
            assert(names.no_duplicates()) by {
                assert forall|x: int, y: int|
                    0 <= x < names.len() && 0 <= y < names.len() && x != y implies names[x]
                    != names[y] by {
                    crate::strutil::lemma_dec_chars_len(x as nat);
                    crate::strutil::lemma_dec_chars_len(y as nat);
                    if x != 0 && y != 0 && names[x] == names[y] {
                        lemma_suffixed_injective(base@, x as nat, y as nat);
                    }
                }
            }
            names.unique_seq_to_set();
            assert forall|n: Seq<char>| names.to_set().contains(n) implies ex.to_set().contains(
                n,
            ) by {
                let w = choose|w: int| 0 <= w < names.len() && names[w] == n;
                if w > 0 {
                    assert(ex.contains(suffixed_name(base@, w as nat)));
                }
            }
            lemma_len_subset(names.to_set(), ex.to_set());
            ex.lemma_cardinality_of_set();
            assert(k + 1 <= ex.len());
        }
        k = k + 1;
    }
}

/// Everything a canvas creation lays down.
#[derive(Debug)]
pub struct CanvasCreatePlan {
    /// The resolved folder name.
    pub folder_name: String,
    /// The file layout rooted at the new folder.
    pub paths: CanvasPaths,
    /// The metadata record to write.
    pub meta: CanvasMeta,
    /// The initial UI state to write.
    pub state: CanvasUIState,
    /// The initial, empty workspace document to write.
    pub workspace: WorkspaceData,
    /// The composed info.
    pub info: CanvasInfo,
}

/// What a canvas creation guarantees.
pub open spec fn canvas_create_ok(
    plan: CanvasCreatePlan,
    canvases_dir: Seq<char>,
    vault_id: Seq<char>,
    name: Seq<char>,
    description: Option<Seq<char>>,
    existing: Seq<Seq<char>>,
) -> bool {
    &&& resolved_folder_name(sanitize_spec(name), existing, plan.folder_name@)
    &&& plan.paths.root@ == spec_join(canvases_dir, plan.folder_name@)
    &&& plan.paths.wf()
    &&& plan.meta.id@.len() == 36
    &&& plan.meta.vault_id@ == vault_id
    &&& plan.meta.name@ == name
    &&& plan.meta.description@ == (match description {
        Some(d) => d,
        None => Seq::<char>::empty(),
    })
    &&& plan.meta.tags.deep_view() == Seq::<Seq<char>>::empty()
    &&& plan.meta.version@ == "2.0.0"@
    &&& plan.meta.created_at@ == plan.meta.updated_at@
    &&& is_default_ui_state(plan.state)
    &&& is_empty_document(plan.workspace)
    &&& plan.info.reflects(plan.meta, plan.paths.root@)
}

/// What the caller observed in one canvas directory before opening it.
#[derive(Debug)]
pub struct CanvasDirSnapshot {
    /// The directory itself.
    pub path: String,
    /// Outcome of reading the current-schema metadata file; `None` when
    /// that file does not exist.
    pub meta_read: Option<Result<CanvasMeta, MosaicError>>,
    /// Outcome of reading the legacy marker file; `None` when it does
    /// not exist.
    pub legacy_read: Option<Result<String, MosaicError>>,
    /// The directory's own name, the fallback display name.
    pub folder_name: String,
    /// The owning vault's metadata text, when readable.
    pub vault_doc: Option<String>,
    /// Whether a UI-state file already exists.
    pub state_exists: bool,
}

/// Under which snapshots opening fails.
pub open spec fn snapshot_open_fails(d: CanvasDirSnapshot) -> bool {
    match d.meta_read {
        Some(res) => res is Err,
        None => match d.legacy_read {
            None => true,
            Some(res) => match res {
                Err(_) => true,
                Ok(t) => !json_parses(t@),
            },
        },
    }
}

/// What a successful open yields for a snapshot: the stored record as
/// is, or the migration's product.
pub open spec fn snapshot_open_gives(
    d: CanvasDirSnapshot,
    info: CanvasInfo,
    migration: Option<CanvasMigration>,
) -> bool {
    match d.meta_read {
        Some(res) => {
            &&& res matches Ok(m) && info.reflects(m, d.path@)
            &&& migration is None
        },
        None => match d.legacy_read {
            Some(res) => match res {
                Ok(t) => {
                    &&& json_parses(t@)
                    &&& migration matches Some(mg) && canvas_migration_ok(
                        d.path@,
                        d.folder_name@,
                        Some(t@),
                        (match d.vault_doc {
                            Some(v) => Some(v@),
                            None => None,
                        }),
                        d.state_exists,
                        mg,
                    ) && info.reflects(mg.meta, d.path@)
                },
                Err(_) => false,
            },
            None => false,
        },
    }
}

/// A successful open, with the migration to persist when one ran.
#[derive(Debug)]
pub struct CanvasOpenOutcome {
    pub info: CanvasInfo,
    pub migration: Option<CanvasMigration>,
}

/// The sort key of a listed canvas.
pub open spec fn ikey(c: CanvasInfo) -> Seq<char> {
    c.updated_at@
}

/// Sorted by `updated_at` descending.
pub open spec fn sorted_desc_infos(s: Seq<CanvasInfo>) -> bool {
    forall|i: int, j: int| 0 <= i < j < s.len() ==> lex_le(ikey(s[j]), ikey(s[i]))
}

/// Insertion of an info into a descending list.
pub open spec fn insert_desc_info(s: Seq<CanvasInfo>, e: CanvasInfo) -> Seq<CanvasInfo>
    decreases s.len(),
{
    if s.len() == 0 {
        seq![e]
    } else if lex_le(ikey(s[0]), ikey(e)) {
        seq![e] + s
    } else {
        seq![s[0]] + insert_desc_info(s.skip(1), e)
    }
}

proof fn lemma_insert_desc_info_at(s: Seq<CanvasInfo>, e: CanvasInfo, p: int)
    requires
        0 <= p <= s.len(),
        forall|j: int| 0 <= j < p ==> !lex_le(ikey(s[j]), ikey(e)),
        p < s.len() ==> lex_le(ikey(s[p]), ikey(e)),
    ensures
        insert_desc_info(s, e) == s.take(p) + seq![e] + s.skip(p),
    decreases p,
{
    if p == 0 {
        assert(insert_desc_info(s, e) =~= s.take(0) + seq![e] + s.skip(0));
    } else {
        lemma_insert_desc_info_at(s.skip(1), e, p - 1);
        assert(s.skip(1).take(p - 1) =~= s.take(p).skip(1));
        assert(s.skip(1).skip(p - 1) =~= s.skip(p));
        assert(seq![s[0]] + (s.skip(1).take(p - 1) + seq![e] + s.skip(1).skip(p - 1)) =~= s.take(p)
            + seq![e] + s.skip(p));
    }
}

proof fn lemma_insert_desc_info_props(s: Seq<CanvasInfo>, e: CanvasInfo)
    ensures
        insert_desc_info(s, e).len() == s.len() + 1,
        forall|k: int|
            0 <= k < insert_desc_info(s, e).len() ==> (#[trigger] insert_desc_info(s, e)[k] == e
                || s.contains(insert_desc_info(s, e)[k])),
        sorted_desc_infos(s) ==> sorted_desc_infos(insert_desc_info(s, e)),
    decreases s.len(),
{
    let r = insert_desc_info(s, e);
    if s.len() == 0 {
    } else if lex_le(ikey(s[0]), ikey(e)) {
        assert forall|k: int| 0 <= k < r.len() implies (r[k] == e || s.contains(r[k])) by {
            if k > 0 {
                assert(r[k] == s[k - 1]);
            }
        }
        if sorted_desc_infos(s) {
            assert forall|i: int, j: int| 0 <= i < j < r.len() implies lex_le(
                ikey(r[j]),
                ikey(r[i]),
            ) by {
                if i == 0 {
                    assert(r[j] == s[j - 1]);
                    if j > 1 {
                        assert(lex_le(ikey(s[j - 1]), ikey(s[0])));
                        crate::strutil::lemma_lex_le_trans(ikey(s[j - 1]), ikey(s[0]), ikey(e));
                    }
                } else {
                    assert(r[i] == s[i - 1] && r[j] == s[j - 1]);
                }
            }
        }
    } else {
        lemma_insert_desc_info_props(s.skip(1), e);
        let rr = insert_desc_info(s.skip(1), e);
        assert forall|k: int| 0 <= k < r.len() implies (r[k] == e || s.contains(r[k])) by {
            if k > 0 {
                assert(r[k] == rr[k - 1]);
                if rr[k - 1] != e {
                    assert(s.skip(1).contains(rr[k - 1]));
                    let w = choose|w: int| 0 <= w < s.skip(1).len() && s.skip(1)[w] == rr[k - 1];
                    assert(s[w + 1] == rr[k - 1]);
                }
            }
        }
        if sorted_desc_infos(s) {
            assert(sorted_desc_infos(s.skip(1)));
            crate::strutil::lemma_lex_le_total(ikey(s[0]), ikey(e));
            assert forall|i: int, j: int| 0 <= i < j < r.len() implies lex_le(
                ikey(r[j]),
                ikey(r[i]),
            ) by {
                if i == 0 {
                    assert(r[j] == rr[j - 1]);
                    if rr[j - 1] == e {
                        assert(lex_le(ikey(e), ikey(s[0])));
                    } else {
                        assert(s.skip(1).contains(rr[j - 1]));
                        let w = choose|w: int|
                            0 <= w < s.skip(1).len() && s.skip(1)[w] == rr[j - 1];
                        assert(s[w + 1] == rr[j - 1]);
                        assert(lex_le(ikey(s[w + 1]), ikey(s[0])));
                    }
                } else {
                    assert(r[i] == rr[i - 1] && r[j] == rr[j - 1]);
                }
            }
        }
    }
}

fn insert_info_sorted(v: &mut Vec<CanvasInfo>, e: CanvasInfo)
    ensures
        final(v)@ == insert_desc_info(old(v)@, e),
{
    let mut p: usize = 0;
    loop
        invariant
            p <= v@.len(),
            v@ == old(v)@,
            forall|j: int| 0 <= j < p ==> !lex_le(ikey(v@[j]), ikey(e)),
        ensures
            p <= v@.len(),
            v@ == old(v)@,
            forall|j: int| 0 <= j < p ==> !lex_le(ikey(v@[j]), ikey(e)),
            p < v@.len() ==> lex_le(ikey(v@[p as int]), ikey(e)),
        decreases v@.len() - p,
    {
        if p == v.len() {
            break ;
        }
        if str_lex_le(v[p].updated_at.as_str(), e.updated_at.as_str()) {
            break ;
        }
        p = p + 1;
    }
    proof {
        lemma_insert_desc_info_at(v@, e, p as int);
    }
    v.insert(p, e);
    proof {
        assert(final(v)@ =~= old(v)@.take(p as int) + seq![e] + old(v)@.skip(p as int));
    }
}

/// The failure predicate, as a closure for counting.
pub open spec fn snapshot_fails_pred() -> spec_fn(CanvasDirSnapshot) -> bool {
    |d: CanvasDirSnapshot| snapshot_open_fails(d)
}

#[derive(Debug)]
pub struct CanvasService;

impl CanvasService {
    /// Plans the creation of a canvas inside `canvases_dir`, against
    /// the entry names already present there.
    pub fn create(
        canvases_dir: &String,
        vault_id: &str,
        name: &str,
        description: Option<&str>,
        existing: &Vec<String>,
    ) -> (r: CanvasCreatePlan)
        ensures
            canvas_create_ok(
                r,
                canvases_dir@,
                vault_id@,
                name@,
                (match description {
                    Some(d) => Some(d@),
                    None => None,
                }),
                existing.deep_view(),
            ),
    {
        let base = sanitize_name(name);
        let folder_name = resolve_folder_name(base, existing);
        let root = crate::strutil::join_path(canvases_dir.as_str(), folder_name.as_str());
        let paths = CanvasPaths::from_root(&root);
        let canvas_id = generate_uuid();
        let mut meta = CanvasMeta::new(canvas_id, vault_id.to_owned(), name.to_owned());
        if let Some(d) = description {
            meta = meta.with_description(d.to_owned());
        }
        let state = CanvasUIState::default();
        let workspace = WorkspaceData::new();
        let info = CanvasInfo::from_meta(&meta, root);
        CanvasCreatePlan { folder_name, paths, meta, state, workspace, info }
    }

    /// Opens one canvas directory from its snapshot: the stored record
    /// when the current schema is present, a migration when only the
    /// legacy marker is, and a failure otherwise.
    pub fn open(d: CanvasDirSnapshot) -> (r: Result<CanvasOpenOutcome, MosaicError>)
        ensures
            d.meta_read matches Some(Err(e)) ==> (r matches Err(e2) && e2 == e),
            d.meta_read is None && d.legacy_read is None ==> (r matches Err(e) && e.code
                == ErrorCode::CanvasNotFound),
            d.meta_read is None ==> (d.legacy_read matches Some(Err(e)) ==> (r matches Err(e2)
                && e2 == e)),
            d.meta_read is None ==> (d.legacy_read matches Some(Ok(t)) ==> (!json_parses(t@) ==> (
            r matches Err(e) && e.code == ErrorCode::InvalidJson))),
            !snapshot_open_fails(d) ==> (r matches Ok(o) && snapshot_open_gives(
                d,
                o.info,
                o.migration,
            )),
    {
        match d.meta_read {
            Some(Ok(m)) => {
                let info = CanvasInfo::from_meta(&m, d.path.clone());
                Ok(CanvasOpenOutcome { info, migration: None })
            },
            Some(Err(e)) => Err(e),
            None => {
                if d.legacy_read.is_none() {
                    return Err(MosaicError::canvas_not_found(d.path.as_str()));
                }
                let mg = MigrationService::migrate_canvas(
                    &d.path,
                    d.folder_name.as_str(),
                    d.legacy_read,
                    d.vault_doc,
                    d.state_exists,
                )?;
                let info = CanvasInfo::from_meta(&mg.meta, d.path.clone());
                Ok(CanvasOpenOutcome { info, migration: Some(mg) })
            },
        }
    }

    /// Opens every snapshot, silently dropping the ones that fail, and
    /// returns the surviving infos sorted by `updated_at` descending,
    /// together with the migrations that ran along the way.
    pub fn list(dirs: Vec<CanvasDirSnapshot>) -> (r: (Vec<CanvasInfo>, Vec<CanvasMigration>))
        ensures
            sorted_desc_infos(r.0@),
            r.0@.len() == dirs@.len() - dirs@.filter(snapshot_fails_pred()).len(),
            forall|x: CanvasInfo| #[trigger]
                r.0@.contains(x) ==> exists|d: int, mg: Option<CanvasMigration>|
                    0 <= d < dirs@.len() && snapshot_open_gives(dirs@[d], x, mg),
    {
        broadcast use Seq::lemma_filter_push;
        broadcast use Seq::lemma_filter_len;

        let mut rest = dirs;
        let mut infos: Vec<CanvasInfo> = Vec::new();
        let mut migrations: Vec<CanvasMigration> = Vec::new();
        let ghost orig = rest@;
        let ghost mut done: Seq<CanvasDirSnapshot> = Seq::empty();
        proof {
            assert(done.filter(snapshot_fails_pred()) =~= Seq::<CanvasDirSnapshot>::empty()) by {
                reveal(Seq::filter);
            }
        }
        while rest.len() > 0
            invariant
                orig =~= done + rest@,
                sorted_desc_infos(infos@),
                infos@.len() == done.len() - done.filter(snapshot_fails_pred()).len(),
                forall|x: CanvasInfo| #[trigger]
                    infos@.contains(x) ==> exists|d: int, mg: Option<CanvasMigration>|
                        0 <= d < orig.len() && snapshot_open_gives(orig[d], x, mg),
            decreases rest@.len(),
        {
            let ghost restpre = rest@;
            let d = rest.remove(0);
            let ghost dsnap = d;
            let ghost infos0 = infos@;
            let ghost done0 = done;
            proof {
                done = done.push(dsnap);
                done0.lemma_filter_push(dsnap, snapshot_fails_pred());
                assert(orig[done0.len() as int] == dsnap);
            }
            match Self::open(d) {
                Ok(outcome) => {
                    proof {
                        assert(!snapshot_open_fails(dsnap));
                    }
                    let CanvasOpenOutcome { info, migration } = outcome;
                    let ghost newinfo = info;
                    let ghost mgopt = migration;
                    proof {
                        lemma_insert_desc_info_props(infos0, newinfo);
                    }
                    insert_info_sorted(&mut infos, info);
                    if let Some(mg) = migration {
                        migrations.push(mg);
                    }
                    proof {
                        assert(snapshot_open_gives(orig[done0.len() as int], newinfo, mgopt));
                        assert forall|x: CanvasInfo| #[trigger]
                            infos@.contains(x) implies exists|d2: int, mg2: Option<
                            CanvasMigration,
                        >|
                            0 <= d2 < orig.len() && snapshot_open_gives(orig[d2], x, mg2) by {
                            let k = choose|k: int| 0 <= k < infos@.len() && infos@[k] == x;
                            assert(infos@[k] == insert_desc_info(infos0, newinfo)[k]);
                            if x != newinfo {
                                assert(infos0.contains(x));
                            }
                        }
                    }
                },
                Err(_) => {
                    proof {
                        assert(snapshot_open_fails(dsnap));
                    }
                },
            }
            proof {
                assert(orig =~= done + rest@);
            }
        }
        proof {
            assert(orig =~= done);
            assert(orig == dirs@);
        }
        (infos, migrations)
    }

    /// Plans a canvas rename: the record with the new name, and the
    /// folder move when the sanitized target differs and is free.
    pub fn rename(
        path: &String,
        parent: &String,
        meta_read: Result<CanvasMeta, MosaicError>,
        new_name: &str,
        target_exists: bool,
    ) -> (r: Result<CanvasRenamePlan, MosaicError>)
        ensures
            meta_read matches Err(e) ==> (r matches Err(e2) && e2 == e),
            meta_read matches Ok(m) ==> (r matches Ok(p) && {
                &&& p.meta.id@ == m.id@
                &&& p.meta.vault_id@ == m.vault_id@
                &&& p.meta.name@ == new_name@
                &&& p.meta.description@ == m.description@
                &&& p.meta.tags.deep_view() == m.tags.deep_view()
                &&& p.meta.created_at@ == m.created_at@
                &&& p.meta.version@ == m.version@
                &&& p.new_path@ == spec_join(parent@, sanitize_spec(new_name@))
                &&& p.do_move == (p.new_path@ != path@ && !target_exists)
                &&& p.do_move ==> p.info.reflects(p.meta, p.new_path@)
                &&& !p.do_move ==> p.info.reflects(p.meta, path@)
            }),
    {
        let mut meta = match meta_read {
            Ok(m) => m,
            Err(e) => {
                return Err(e);
            },
        };
        meta.name = new_name.to_owned();
        meta.touch();
        let folder = sanitize_name(new_name);
        let new_path = crate::strutil::join_path(parent.as_str(), folder.as_str());
        let do_move = !crate::strutil::str_eq(new_path.as_str(), path.as_str()) && !target_exists;
        let info = if do_move {
            CanvasInfo::from_meta(&meta, new_path.clone())
        } else {
            CanvasInfo::from_meta(&meta, path.clone())
        };
        Ok(CanvasRenamePlan { meta, new_path, do_move, info })
    }

    /// The id to report for a deletion: read from the current-schema
    /// record when one is readable, absent otherwise. Deletion itself
    /// never depends on it.
    pub fn delete(meta_read: Option<Result<CanvasMeta, MosaicError>>) -> (r: Option<String>)
        ensures
            meta_read matches Some(Ok(m)) ==> (r matches Some(id) && id@ == m.id@),
            !(meta_read matches Some(Ok(m))) ==> r is None,
    {
        Self::get_canvas_id(meta_read)
    }

    /// The canvas id out of a metadata read, if it succeeded.
    pub fn get_canvas_id(meta_read: Option<Result<CanvasMeta, MosaicError>>) -> (r: Option<String>)
        ensures
            meta_read matches Some(Ok(m)) ==> (r matches Some(id) && id@ == m.id@),
            !(meta_read matches Some(Ok(m))) ==> r is None,
    {
        match meta_read {
            Some(Ok(m)) => Some(m.id),
            _ => None,
        }
    }

    /// Replaces the tag list; requires the current schema to be present
    /// already, with no implicit migration.
    pub fn update_tags(
        path: &String,
        meta_read: Option<Result<CanvasMeta, MosaicError>>,
        tags: Vec<String>,
    ) -> (r: Result<(CanvasMeta, CanvasInfo), MosaicError>)
        ensures
            meta_read is None ==> (r matches Err(e) && e.code == ErrorCode::CanvasNotFound),
            meta_read matches Some(Err(e)) ==> (r matches Err(e2) && e2 == e),
            meta_read matches Some(Ok(m)) ==> (r matches Ok((m2, info)) && {
                &&& m2.id@ == m.id@
                &&& m2.vault_id@ == m.vault_id@
                &&& m2.name@ == m.name@
                &&& m2.description@ == m.description@
                &&& m2.tags.deep_view() == tags.deep_view()
                &&& m2.created_at@ == m.created_at@
                &&& m2.version@ == m.version@
                &&& info.reflects(m2, path@)
            }),
    {
        let mut meta = match meta_read {
            None => {
                return Err(MosaicError::canvas_not_found(path.as_str()));
            },
            Some(Err(e)) => {
                return Err(e);
            },
            Some(Ok(m)) => m,
        };
        meta = meta.with_tags(tags);
        meta.touch();
        let info = CanvasInfo::from_meta(&meta, path.clone());
        Ok((meta, info))
    }

    /// Replaces the description; requires the current schema to be
    /// present already, with no implicit migration.
    pub fn update_description(
        path: &String,
        meta_read: Option<Result<CanvasMeta, MosaicError>>,
        description: &str,
    ) -> (r: Result<(CanvasMeta, CanvasInfo), MosaicError>)
        ensures
            meta_read is None ==> (r matches Err(e) && e.code == ErrorCode::CanvasNotFound),
            meta_read matches Some(Err(e)) ==> (r matches Err(e2) && e2 == e),
            meta_read matches Some(Ok(m)) ==> (r matches Ok((m2, info)) && {
                &&& m2.id@ == m.id@
                &&& m2.vault_id@ == m.vault_id@
                &&& m2.name@ == m.name@
                &&& m2.description@ == description@
                &&& m2.tags.deep_view() == m.tags.deep_view()
                &&& m2.created_at@ == m.created_at@
                &&& m2.version@ == m.version@
                &&& info.reflects(m2, path@)
            }),
    {
        let mut meta = match meta_read {
            None => {
                return Err(MosaicError::canvas_not_found(path.as_str()));
            },
            Some(Err(e)) => {
                return Err(e);
            },
            Some(Ok(m)) => m,
        };
        meta = meta.with_description(description.to_owned());
        meta.touch();
        let info = CanvasInfo::from_meta(&meta, path.clone());
        Ok((meta, info))
    }

    /// Interprets the outcome of reading the UI-state file: a missing
    /// file yields the default state, everything else passes through.
    pub fn load_state(read: Option<Result<CanvasUIState, MosaicError>>) -> (r: Result<
        CanvasUIState,
        MosaicError,
    >)
        ensures
            read is None ==> (r matches Ok(s) && is_default_ui_state(s)),
            read matches Some(outcome) ==> r == outcome,
    {
        match read {
            None => Ok(CanvasUIState::default()),
            Some(outcome) => outcome,
        }
    }

    /// Stamps the state for saving; everything but the stamp is kept.
    pub fn save_state(state: CanvasUIState) -> (r: CanvasUIState)
        ensures
            r.viewport == state.viewport,
            r.selected_nodes.deep_view() == state.selected_nodes.deep_view(),
            r.selected_edges.deep_view() == state.selected_edges.deep_view(),
            r.canvas_mode@ == state.canvas_mode@,
    {
        let mut s = state;
        s.touch();
        s
    }
}

/// A planned canvas rename.
#[derive(Debug)]
pub struct CanvasRenamePlan {
    /// The record to write back, carrying the new name.
    pub meta: CanvasMeta,
    /// Where the folder would move.
    pub new_path: String,
    /// Whether the folder is actually moved there.
    pub do_move: bool,
    /// The info, rooted at the final location.
    pub info: CanvasInfo,
}

} // verus!

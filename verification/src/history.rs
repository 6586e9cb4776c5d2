//! The most-recently-used history index.
//!
//! Entries are kept sorted by `last_opened`, newest first, with at most
//! one entry per id and at most `max_items` entries. Tracking an id that
//! is already present updates the entry in place and bumps its open
//! count; tracking a fresh id appends a new entry; either way the entry
//! is re-inserted at its sorted position and the tail beyond the cap is
//! evicted.

use vstd::prelude::*;
use vstd::string::*;
use crate::clock::now_iso;
use crate::strutil::{lex_le, lemma_lex_le_total, lemma_lex_le_trans, str_lex_le, str_eq};

verus! {

fn default_max_history() -> (r: usize)
    ensures
        r == 50,
{
    50
}

/// Entry in vault history.
#[derive(Debug)]
pub struct VaultHistoryEntry {
    /// Unique identifier of the vault.
    pub id: String,
    /// Display name.
    pub name: String,
    /// Last known filesystem path.
    pub path: String,
    /// When the vault was last opened (RFC 3339).
    pub last_opened: String,
    /// How often it was opened; saturates instead of overflowing.
    pub open_count: u32,
    /// When the entry was first added; set once.
    pub added_at: String,
}

impl VaultHistoryEntry {
    /// An exact copy.
    pub fn duplicate(&self) -> (r: Self)
        ensures
            r == *self,
    {
        VaultHistoryEntry {
            id: self.id.clone(),
            name: self.name.clone(),
            path: self.path.clone(),
            last_opened: self.last_opened.clone(),
            open_count: self.open_count,
            added_at: self.added_at.clone(),
        }
    }
}

/// Entry in canvas history.
#[derive(Debug)]
pub struct CanvasHistoryEntry {
    /// Unique identifier of the canvas.
    pub id: String,
    /// Owning vault's identifier.
    pub vault_id: String,
    /// Display name.
    pub name: String,
    /// Last known filesystem path.
    pub path: String,
    /// When the canvas was last opened (RFC 3339).
    pub last_opened: String,
    /// How often it was opened; saturates instead of overflowing.
    pub open_count: u32,
    /// When the entry was first added; set once.
    pub added_at: String,
}

impl CanvasHistoryEntry {
    /// An exact copy.
    pub fn duplicate(&self) -> (r: Self)
        ensures
            r == *self,
    {
        CanvasHistoryEntry {
            id: self.id.clone(),
            vault_id: self.vault_id.clone(),
            name: self.name.clone(),
            path: self.path.clone(),
            last_opened: self.last_opened.clone(),
            open_count: self.open_count,
            added_at: self.added_at.clone(),
        }
    }
}

/// The sort key of a vault entry.
pub open spec fn vkey(e: VaultHistoryEntry) -> Seq<char> {
    e.last_opened@
}

/// The sort key of a canvas entry.
pub open spec fn ckey(e: CanvasHistoryEntry) -> Seq<char> {
    e.last_opened@
}

/// Sorted by `last_opened` descending.
pub open spec fn sorted_desc_vaults(s: Seq<VaultHistoryEntry>) -> bool {
    forall|i: int, j: int| 0 <= i < j < s.len() ==> lex_le(vkey(s[j]), vkey(s[i]))
}

/// Sorted by `last_opened` descending.
pub open spec fn sorted_desc_canvases(s: Seq<CanvasHistoryEntry>) -> bool {
    forall|i: int, j: int| 0 <= i < j < s.len() ==> lex_le(ckey(s[j]), ckey(s[i]))
}

/// At most one entry per id.
pub open spec fn unique_vault_ids(s: Seq<VaultHistoryEntry>) -> bool {
    forall|i: int, j: int| 0 <= i < j < s.len() ==> s[i].id@ != s[j].id@
}

/// At most one entry per id.
pub open spec fn unique_canvas_ids(s: Seq<CanvasHistoryEntry>) -> bool {
    forall|i: int, j: int| 0 <= i < j < s.len() ==> s[i].id@ != s[j].id@
}

/// Whether some entry carries the id.
pub open spec fn has_vault_entry(s: Seq<VaultHistoryEntry>, id: Seq<char>) -> bool {
    exists|i: int| 0 <= i < s.len() && s[i].id@ == id
}

/// Whether some entry carries the id.
pub open spec fn has_canvas_entry(s: Seq<CanvasHistoryEntry>, id: Seq<char>) -> bool {
    exists|i: int| 0 <= i < s.len() && s[i].id@ == id
}

/// The sequence cut off at `max` entries.
pub open spec fn capped<A>(s: Seq<A>, max: int) -> Seq<A> {
    if s.len() <= max {
        s
    } else {
        s.take(max)
    }
}

/// Insertion of `e` into a descending list: `e` goes in front of the
/// first entry whose key is at most `e`'s.
pub open spec fn insert_desc_vault(s: Seq<VaultHistoryEntry>, e: VaultHistoryEntry) -> Seq<
    VaultHistoryEntry,
>
    decreases s.len(),
{
    if s.len() == 0 {
        seq![e]
    } else if lex_le(vkey(s[0]), vkey(e)) {
        seq![e] + s
    } else {
        seq![s[0]] + insert_desc_vault(s.skip(1), e)
    }
}

/// Insertion of `e` into a descending list: `e` goes in front of the
/// first entry whose key is at most `e`'s.
pub open spec fn insert_desc_canvas(s: Seq<CanvasHistoryEntry>, e: CanvasHistoryEntry) -> Seq<
    CanvasHistoryEntry,
>
    decreases s.len(),
{
    if s.len() == 0 {
        seq![e]
    } else if lex_le(ckey(s[0]), ckey(e)) {
        seq![e] + s
    } else {
        seq![s[0]] + insert_desc_canvas(s.skip(1), e)
    }
}

proof fn lemma_insert_desc_vault_at(s: Seq<VaultHistoryEntry>, e: VaultHistoryEntry, p: int)
    requires
        0 <= p <= s.len(),
        forall|j: int| 0 <= j < p ==> !lex_le(vkey(s[j]), vkey(e)),
        p < s.len() ==> lex_le(vkey(s[p]), vkey(e)),
    ensures
        insert_desc_vault(s, e) == s.take(p) + seq![e] + s.skip(p),
    decreases p,
{
    if p == 0 {
        if s.len() == 0 {
            assert(insert_desc_vault(s, e) =~= s.take(0) + seq![e] + s.skip(0));
        } else {
            assert(insert_desc_vault(s, e) =~= s.take(0) + seq![e] + s.skip(0));
        }
    } else {
        lemma_insert_desc_vault_at(s.skip(1), e, p - 1);
        assert(s.skip(1).take(p - 1) =~= s.take(p).skip(1));
        assert(s.skip(1).skip(p - 1) =~= s.skip(p));
        assert(seq![s[0]] + (s.skip(1).take(p - 1) + seq![e] + s.skip(1).skip(p - 1)) =~= s.take(p)
            + seq![e] + s.skip(p));
    }
}

proof fn lemma_insert_desc_canvas_at(s: Seq<CanvasHistoryEntry>, e: CanvasHistoryEntry, p: int)
    requires
        0 <= p <= s.len(),
        forall|j: int| 0 <= j < p ==> !lex_le(ckey(s[j]), ckey(e)),
        p < s.len() ==> lex_le(ckey(s[p]), ckey(e)),
    ensures
        insert_desc_canvas(s, e) == s.take(p) + seq![e] + s.skip(p),
    decreases p,
{
    if p == 0 {
        if s.len() == 0 {
            assert(insert_desc_canvas(s, e) =~= s.take(0) + seq![e] + s.skip(0));
        } else {
            assert(insert_desc_canvas(s, e) =~= s.take(0) + seq![e] + s.skip(0));
        }
    } else {
        lemma_insert_desc_canvas_at(s.skip(1), e, p - 1);
        assert(s.skip(1).take(p - 1) =~= s.take(p).skip(1));
        assert(s.skip(1).skip(p - 1) =~= s.skip(p));
        assert(seq![s[0]] + (s.skip(1).take(p - 1) + seq![e] + s.skip(1).skip(p - 1)) =~= s.take(p)
            + seq![e] + s.skip(p));
    }
}

/// Inserting into a sorted list keeps it sorted, keeps its length plus
/// one, contains the new entry, and adds nothing else.
proof fn lemma_insert_desc_vault_props(s: Seq<VaultHistoryEntry>, e: VaultHistoryEntry)
    ensures
        insert_desc_vault(s, e).len() == s.len() + 1,
        insert_desc_vault(s, e).contains(e),
        forall|k: int|
            0 <= k < insert_desc_vault(s, e).len() ==> (#[trigger] insert_desc_vault(s, e)[k] == e
                || s.contains(insert_desc_vault(s, e)[k])),
        sorted_desc_vaults(s) ==> sorted_desc_vaults(insert_desc_vault(s, e)),
    decreases s.len(),
{
    let r = insert_desc_vault(s, e);
    if s.len() == 0 {
        assert(r[0] == e);
    } else if lex_le(vkey(s[0]), vkey(e)) {
        assert(r[0] == e);
        assert forall|k: int| 0 <= k < r.len() implies (r[k] == e || s.contains(r[k])) by {
            if k > 0 {
                assert(r[k] == s[k - 1]);
            }
        }
        if sorted_desc_vaults(s) {
            assert forall|i: int, j: int| 0 <= i < j < r.len() implies lex_le(
                vkey(r[j]),
                vkey(r[i]),
            ) by {
                if i == 0 {
                    assert(r[j] == s[j - 1]);
                    if j > 1 {
                        assert(lex_le(vkey(s[j - 1]), vkey(s[0])));
                        lemma_lex_le_trans(vkey(s[j - 1]), vkey(s[0]), vkey(e));
                    }
                } else {
                    assert(r[i] == s[i - 1] && r[j] == s[j - 1]);
                }
            }
        }
    } else {
        lemma_insert_desc_vault_props(s.skip(1), e);
        let rr = insert_desc_vault(s.skip(1), e);
        let we = choose|we: int| 0 <= we < rr.len() && rr[we] == e;
        assert(r[we + 1] == e);
        assert forall|k: int| 0 <= k < r.len() implies (r[k] == e || s.contains(r[k])) by {
            if k > 0 {
                assert(r[k] == rr[k - 1]);
                if rr[k - 1] != e {
                    assert(s.skip(1).contains(rr[k - 1]));
                    let w = choose|w: int| 0 <= w < s.skip(1).len() && s.skip(1)[w] == rr[k - 1];
                    assert(s[w + 1] == rr[k - 1]);
                }
            }
        }
        if sorted_desc_vaults(s) {
            assert(sorted_desc_vaults(s.skip(1)));
            lemma_lex_le_total(vkey(s[0]), vkey(e));
            assert forall|i: int, j: int| 0 <= i < j < r.len() implies lex_le(
                vkey(r[j]),
                vkey(r[i]),
            ) by {
                if i == 0 {
                    assert(r[j] == rr[j - 1]);
                    if rr[j - 1] == e {
                        assert(lex_le(vkey(e), vkey(s[0])));
                    } else {
                        assert(s.skip(1).contains(rr[j - 1]));
                        let w = choose|w: int|
                            0 <= w < s.skip(1).len() && s.skip(1)[w] == rr[j - 1];
                        assert(s[w + 1] == rr[j - 1]);
                        assert(lex_le(vkey(s[w + 1]), vkey(s[0])));
                    }
                } else {
                    assert(r[i] == rr[i - 1] && r[j] == rr[j - 1]);
                }
            }
        }
    }
}

proof fn lemma_insert_desc_canvas_props(s: Seq<CanvasHistoryEntry>, e: CanvasHistoryEntry)
    ensures
        insert_desc_canvas(s, e).len() == s.len() + 1,
        insert_desc_canvas(s, e).contains(e),
        forall|k: int|
            0 <= k < insert_desc_canvas(s, e).len() ==> (#[trigger] insert_desc_canvas(s, e)[k]
                == e || s.contains(insert_desc_canvas(s, e)[k])),
        sorted_desc_canvases(s) ==> sorted_desc_canvases(insert_desc_canvas(s, e)),
    decreases s.len(),
{
    let r = insert_desc_canvas(s, e);
    if s.len() == 0 {
        assert(r[0] == e);
    } else if lex_le(ckey(s[0]), ckey(e)) {
        assert(r[0] == e);
        assert forall|k: int| 0 <= k < r.len() implies (r[k] == e || s.contains(r[k])) by {
            if k > 0 {
                assert(r[k] == s[k - 1]);
            }
        }
        if sorted_desc_canvases(s) {
            assert forall|i: int, j: int| 0 <= i < j < r.len() implies lex_le(
                ckey(r[j]),
                ckey(r[i]),
            ) by {
                if i == 0 {
                    assert(r[j] == s[j - 1]);
                    if j > 1 {
                        assert(lex_le(ckey(s[j - 1]), ckey(s[0])));
                        lemma_lex_le_trans(ckey(s[j - 1]), ckey(s[0]), ckey(e));
                    }
                } else {
                    assert(r[i] == s[i - 1] && r[j] == s[j - 1]);
                }
            }
        }
    } else {
        lemma_insert_desc_canvas_props(s.skip(1), e);
        let rr = insert_desc_canvas(s.skip(1), e);
        let we = choose|we: int| 0 <= we < rr.len() && rr[we] == e;
        assert(r[we + 1] == e);
        assert forall|k: int| 0 <= k < r.len() implies (r[k] == e || s.contains(r[k])) by {
            if k > 0 {
                assert(r[k] == rr[k - 1]);
                if rr[k - 1] != e {
                    assert(s.skip(1).contains(rr[k - 1]));
                    let w = choose|w: int| 0 <= w < s.skip(1).len() && s.skip(1)[w] == rr[k - 1];
                    assert(s[w + 1] == rr[k - 1]);
                }
            }
        }
        if sorted_desc_canvases(s) {
            assert(sorted_desc_canvases(s.skip(1)));
            lemma_lex_le_total(ckey(s[0]), ckey(e));
            assert forall|i: int, j: int| 0 <= i < j < r.len() implies lex_le(
                ckey(r[j]),
                ckey(r[i]),
            ) by {
                if i == 0 {
                    assert(r[j] == rr[j - 1]);
                    if rr[j - 1] == e {
                        assert(lex_le(ckey(e), ckey(s[0])));
                    } else {
                        assert(s.skip(1).contains(rr[j - 1]));
                        let w = choose|w: int|
                            0 <= w < s.skip(1).len() && s.skip(1)[w] == rr[j - 1];
                        assert(s[w + 1] == rr[j - 1]);
                        assert(lex_le(ckey(s[w + 1]), ckey(s[0])));
                    }
                } else {
                    assert(r[i] == rr[i - 1] && r[j] == rr[j - 1]);
                }
            }
        }
    }
}

fn insert_vault_sorted(v: &mut Vec<VaultHistoryEntry>, e: VaultHistoryEntry)
    ensures
        final(v)@ == insert_desc_vault(old(v)@, e),
{
    let mut p: usize = 0;
    loop
        invariant
            p <= v@.len(),
            v@ == old(v)@,
            forall|j: int| 0 <= j < p ==> !lex_le(vkey(v@[j]), vkey(e)),
        ensures
            p <= v@.len(),
            v@ == old(v)@,
            forall|j: int| 0 <= j < p ==> !lex_le(vkey(v@[j]), vkey(e)),
            p < v@.len() ==> lex_le(vkey(v@[p as int]), vkey(e)),
        decreases v@.len() - p,
    {
        if p == v.len() {
            break ;
        }
        if str_lex_le(v[p].last_opened.as_str(), e.last_opened.as_str()) {
            break ;
        }
        p = p + 1;
    }
    proof {
        lemma_insert_desc_vault_at(v@, e, p as int);
    }
    v.insert(p, e);
    proof {
        assert(final(v)@ =~= old(v)@.take(p as int) + seq![e] + old(v)@.skip(p as int));
    }
}

fn insert_canvas_sorted(v: &mut Vec<CanvasHistoryEntry>, e: CanvasHistoryEntry)
    ensures
        final(v)@ == insert_desc_canvas(old(v)@, e),
{
    let mut p: usize = 0;
    loop
        invariant
            p <= v@.len(),
            v@ == old(v)@,
            forall|j: int| 0 <= j < p ==> !lex_le(ckey(v@[j]), ckey(e)),
        ensures
            p <= v@.len(),
            v@ == old(v)@,
            forall|j: int| 0 <= j < p ==> !lex_le(ckey(v@[j]), ckey(e)),
            p < v@.len() ==> lex_le(ckey(v@[p as int]), ckey(e)),
        decreases v@.len() - p,
    {
        if p == v.len() {
            break ;
        }
        if str_lex_le(v[p].last_opened.as_str(), e.last_opened.as_str()) {
            break ;
        }
        p = p + 1;
    }
    proof {
        lemma_insert_desc_canvas_at(v@, e, p as int);
    }
    v.insert(p, e);
    proof {
        assert(final(v)@ =~= old(v)@.take(p as int) + seq![e] + old(v)@.skip(p as int));
    }
}

/// History persisted for the whole application.
#[derive(Debug)]
pub struct AppHistory {
    /// Recently opened vaults, newest first.
    pub vaults: Vec<VaultHistoryEntry>,
    /// Recently opened canvases, newest first.
    pub canvases: Vec<CanvasHistoryEntry>,
    /// Cap on either collection.
    pub max_items: usize,
}

impl AppHistory {
    /// Both collections sorted newest-first with at most one entry per
    /// id.
    pub open spec fn wf(self) -> bool {
        &&& sorted_desc_vaults(self.vaults@)
        &&& unique_vault_ids(self.vaults@)
        &&& sorted_desc_canvases(self.canvases@)
        &&& unique_canvas_ids(self.canvases@)
    }
}

impl Default for AppHistory {
    /// Empty history with the default cap.
    fn default() -> (r: Self)
        ensures
            r.vaults@ == Seq::<VaultHistoryEntry>::empty(),
            r.canvases@ == Seq::<CanvasHistoryEntry>::empty(),
            r.max_items == 50,
            r.wf(),
    {
        let r = AppHistory { vaults: Vec::new(), canvases: Vec::new(), max_items: default_max_history() };
        proof {
            assert(r.vaults@ =~= Seq::<VaultHistoryEntry>::empty());
            assert(r.canvases@ =~= Seq::<CanvasHistoryEntry>::empty());
        }
        r
    }
}

/// The saturating bump of an open count.
pub open spec fn bumped(c: u32) -> u32 {
    if c == u32::MAX {
        c
    } else {
        (c + 1) as u32
    }
}

/// What the entry of a first-time track holds.
pub open spec fn fresh_vault_entry(
    e: VaultHistoryEntry,
    id: Seq<char>,
    name: Seq<char>,
    path: Seq<char>,
) -> bool {
    &&& e.id@ == id
    &&& e.name@ == name
    &&& e.path@ == path
    &&& e.open_count == 1
    &&& e.added_at@ == e.last_opened@
}

/// What the entry of a repeat track holds, relative to the entry it
/// replaces.
pub open spec fn updated_vault_entry(
    e: VaultHistoryEntry,
    prev: VaultHistoryEntry,
    name: Seq<char>,
    path: Seq<char>,
) -> bool {
    &&& e.id@ == prev.id@
    &&& e.name@ == name
    &&& e.path@ == path
    &&& e.open_count == bumped(prev.open_count)
    &&& e.added_at@ == prev.added_at@
}

/// What the entry of a first-time canvas track holds.
pub open spec fn fresh_canvas_entry(
    e: CanvasHistoryEntry,
    id: Seq<char>,
    vault_id: Seq<char>,
    name: Seq<char>,
    path: Seq<char>,
) -> bool {
    &&& e.id@ == id
    &&& e.vault_id@ == vault_id
    &&& e.name@ == name
    &&& e.path@ == path
    &&& e.open_count == 1
    &&& e.added_at@ == e.last_opened@
}

/// What the entry of a repeat canvas track holds, relative to the entry
/// it replaces.
pub open spec fn updated_canvas_entry(
    e: CanvasHistoryEntry,
    prev: CanvasHistoryEntry,
    name: Seq<char>,
    path: Seq<char>,
) -> bool {
    &&& e.id@ == prev.id@
    &&& e.vault_id@ == prev.vault_id@
    &&& e.name@ == name
    &&& e.path@ == path
    &&& e.open_count == bumped(prev.open_count)
    &&& e.added_at@ == prev.added_at@
}

proof fn lemma_insert_desc_vault_unique(s: Seq<VaultHistoryEntry>, e: VaultHistoryEntry)
    requires
        unique_vault_ids(s),
        forall|i: int| 0 <= i < s.len() ==> s[i].id@ != e.id@,
    ensures
        unique_vault_ids(insert_desc_vault(s, e)),
    decreases s.len(),
{
    let r = insert_desc_vault(s, e);
    if s.len() == 0 {
    } else if lex_le(vkey(s[0]), vkey(e)) {
        assert forall|i: int, j: int| 0 <= i < j < r.len() implies r[i].id@ != r[j].id@ by {
            if i > 0 {
                assert(r[i] == s[i - 1] && r[j] == s[j - 1]);
            } else {
                assert(r[j] == s[j - 1]);
            }
        }
    } else {
        assert(unique_vault_ids(s.skip(1)));
        lemma_insert_desc_vault_unique(s.skip(1), e);
        lemma_insert_desc_vault_props(s.skip(1), e);
        let rr = insert_desc_vault(s.skip(1), e);
        assert forall|i: int, j: int| 0 <= i < j < r.len() implies r[i].id@ != r[j].id@ by {
            if i == 0 {
                assert(r[j] == rr[j - 1]);
                if rr[j - 1] != e {
                    assert(s.skip(1).contains(rr[j - 1]));
                    let w = choose|w: int| 0 <= w < s.skip(1).len() && s.skip(1)[w] == rr[j - 1];
                    assert(s[w + 1] == rr[j - 1]);
                }
            } else {
                assert(r[i] == rr[i - 1] && r[j] == rr[j - 1]);
            }
        }
    }
}

proof fn lemma_insert_desc_canvas_unique(s: Seq<CanvasHistoryEntry>, e: CanvasHistoryEntry)
    requires
        unique_canvas_ids(s),
        forall|i: int| 0 <= i < s.len() ==> s[i].id@ != e.id@,
    ensures
        unique_canvas_ids(insert_desc_canvas(s, e)),
    decreases s.len(),
{
    let r = insert_desc_canvas(s, e);
    if s.len() == 0 {
    } else if lex_le(ckey(s[0]), ckey(e)) {
        assert forall|i: int, j: int| 0 <= i < j < r.len() implies r[i].id@ != r[j].id@ by {
            if i > 0 {
                assert(r[i] == s[i - 1] && r[j] == s[j - 1]);
            } else {
                assert(r[j] == s[j - 1]);
            }
        }
    } else {
        assert(unique_canvas_ids(s.skip(1)));
        lemma_insert_desc_canvas_unique(s.skip(1), e);
        lemma_insert_desc_canvas_props(s.skip(1), e);
        let rr = insert_desc_canvas(s.skip(1), e);
        assert forall|i: int, j: int| 0 <= i < j < r.len() implies r[i].id@ != r[j].id@ by {
            if i == 0 {
                assert(r[j] == rr[j - 1]);
                if rr[j - 1] != e {
                    assert(s.skip(1).contains(rr[j - 1]));
                    let w = choose|w: int| 0 <= w < s.skip(1).len() && s.skip(1)[w] == rr[j - 1];
                    assert(s[w + 1] == rr[j - 1]);
                }
            } else {
                assert(r[i] == rr[i - 1] && r[j] == rr[j - 1]);
            }
        }
    }
}

/// Every element of a filtered sequence occurs in the sequence it was
/// filtered from.
proof fn lemma_filter_in<A>(s: Seq<A>, p: spec_fn(A) -> bool)
    ensures
        forall|k: int|
            0 <= k < s.filter(p).len() ==> s.contains(#[trigger] s.filter(p)[k]),
    decreases s.len(),
{
    reveal(Seq::filter);
    if s.len() > 0 {
        lemma_filter_in(s.drop_last(), p);
        let r = s.filter(p);
        let rr = s.drop_last().filter(p);
        assert forall|k: int| 0 <= k < r.len() implies s.contains(r[k]) by {
            if k < rr.len() {
                assert(s.drop_last().contains(rr[k]));
                let w = choose|w: int| 0 <= w < s.drop_last().len() && s.drop_last()[w] == rr[k];
                assert(s[w] == rr[k]);
            } else {
                assert(r[k] == s.last());
            }
        }
    }
}

/// Filtering preserves any pairwise property of the sequence.
proof fn lemma_filter_pairwise<A>(s: Seq<A>, p: spec_fn(A) -> bool, rel: spec_fn(A, A) -> bool)
    requires
        forall|i: int, j: int| 0 <= i < j < s.len() ==> rel(s[i], s[j]),
    ensures
        forall|i: int, j: int|
            0 <= i < j < s.filter(p).len() ==> rel(
                #[trigger] s.filter(p)[i],
                #[trigger] s.filter(p)[j],
            ),
    decreases s.len(),
{
    reveal(Seq::filter);
    if s.len() > 0 {
        assert forall|i: int, j: int|
            0 <= i < j < s.drop_last().len() implies rel(s.drop_last()[i], s.drop_last()[j]) by {
            assert(s.drop_last()[i] == s[i] && s.drop_last()[j] == s[j]);
        }
        lemma_filter_pairwise(s.drop_last(), p, rel);
        lemma_filter_in(s.drop_last(), p);
        let r = s.filter(p);
        let rr = s.drop_last().filter(p);
        assert forall|i: int, j: int| 0 <= i < j < r.len() implies rel(r[i], r[j]) by {
            if j < rr.len() {
                assert(r[i] == rr[i] && r[j] == rr[j]);
            } else if j == rr.len() && r.len() == rr.len() + 1 {
                assert(r[i] == rr[i]);
                assert(r[j] == s.last());
                assert(s.drop_last().contains(rr[i]));
                let w = choose|w: int| 0 <= w < s.drop_last().len() && s.drop_last()[w] == rr[i];
                assert(s[w] == rr[i]);
                assert(rel(s[w], s.last()));
            }
        }
    }
}

/// The canvas-entry survival predicate for removal of a vault.
pub open spec fn canvas_of_other_vault(vault_id: Seq<char>) -> spec_fn(CanvasHistoryEntry) -> bool {
    |c: CanvasHistoryEntry| c.vault_id@ != vault_id
}

/// The vault-entry survival predicate for removal of a vault.
pub open spec fn vault_not_named(vault_id: Seq<char>) -> spec_fn(VaultHistoryEntry) -> bool {
    |v: VaultHistoryEntry| v.id@ != vault_id
}

/// The canvas-entry survival predicate for removal of a canvas.
pub open spec fn canvas_not_named(canvas_id: Seq<char>) -> spec_fn(CanvasHistoryEntry) -> bool {
    |c: CanvasHistoryEntry| c.id@ != canvas_id
}

fn retain_vault_entries(v: Vec<VaultHistoryEntry>, id: &str) -> (r: Vec<VaultHistoryEntry>)
    ensures
        r@ == v@.filter(vault_not_named(id@)),
{
    broadcast use Seq::lemma_filter_push;

    let ghost p = vault_not_named(id@);
    let mut rest = v;
    let mut r: Vec<VaultHistoryEntry> = Vec::new();
    let ghost orig = rest@;
    let ghost mut done: Seq<VaultHistoryEntry> = Seq::empty();
    proof {
        assert(done.filter(p) =~= Seq::<VaultHistoryEntry>::empty()) by {
            reveal(Seq::filter);
        }
    }
    while rest.len() > 0
        invariant
            orig =~= done + rest@,
            r@ =~= done.filter(p),
            p == vault_not_named(id@),
        decreases rest@.len(),
    {
        let x = rest.remove(0);
        let keep = !str_eq(x.id.as_str(), id);
        proof {
            let done0 = done;
            done = done.push(x);
            done0.lemma_filter_push(x, p);
            assert(p(x) == keep);
        }
        if keep {
            r.push(x);
        }
        proof {
            assert(orig =~= done + rest@);
        }
    }
    proof {
        assert(orig =~= done);
    }
    r
}

fn retain_canvas_entries_not_in_vault(v: Vec<CanvasHistoryEntry>, vault_id: &str) -> (r: Vec<
    CanvasHistoryEntry,
>)
    ensures
        r@ == v@.filter(canvas_of_other_vault(vault_id@)),
{
    broadcast use Seq::lemma_filter_push;

    let ghost p = canvas_of_other_vault(vault_id@);
    let mut rest = v;
    let mut r: Vec<CanvasHistoryEntry> = Vec::new();
    let ghost orig = rest@;
    let ghost mut done: Seq<CanvasHistoryEntry> = Seq::empty();
    proof {
        assert(done.filter(p) =~= Seq::<CanvasHistoryEntry>::empty()) by {
            reveal(Seq::filter);
        }
    }
    while rest.len() > 0
        invariant
            orig =~= done + rest@,
            r@ =~= done.filter(p),
            p == canvas_of_other_vault(vault_id@),
        decreases rest@.len(),
    {
        let x = rest.remove(0);
        let keep = !str_eq(x.vault_id.as_str(), vault_id);
        proof {
            let done0 = done;
            done = done.push(x);
            done0.lemma_filter_push(x, p);
            assert(p(x) == keep);
        }
        if keep {
            r.push(x);
        }
        proof {
            assert(orig =~= done + rest@);
        }
    }
    proof {
        assert(orig =~= done);
    }
    r
}

fn retain_canvas_entries_not_named(v: Vec<CanvasHistoryEntry>, canvas_id: &str) -> (r: Vec<
    CanvasHistoryEntry,
>)
    ensures
        r@ == v@.filter(canvas_not_named(canvas_id@)),
{
    broadcast use Seq::lemma_filter_push;

    let ghost p = canvas_not_named(canvas_id@);
    let mut rest = v;
    let mut r: Vec<CanvasHistoryEntry> = Vec::new();
    let ghost orig = rest@;
    let ghost mut done: Seq<CanvasHistoryEntry> = Seq::empty();
    proof {
        assert(done.filter(p) =~= Seq::<CanvasHistoryEntry>::empty()) by {
            reveal(Seq::filter);
        }
    }
    while rest.len() > 0
        invariant
            orig =~= done + rest@,
            r@ =~= done.filter(p),
            p == canvas_not_named(canvas_id@),
        decreases rest@.len(),
    {
        let x = rest.remove(0);
        let keep = !str_eq(x.id.as_str(), canvas_id);
        proof {
            let done0 = done;
            done = done.push(x);
            done0.lemma_filter_push(x, p);
            assert(p(x) == keep);
        }
        if keep {
            r.push(x);
        }
        proof {
            assert(orig =~= done + rest@);
        }
    }
    proof {
        assert(orig =~= done);
    }
    r
}

impl AppHistory {
    /// Adds or refreshes the vault entry with this id, re-sorts it into
    /// place, and evicts entries beyond the cap, oldest first.
    pub fn track_vault(&mut self, id: String, name: String, path: String)
        ensures
            final(self).max_items == old(self).max_items,
            final(self).canvases@ == old(self).canvases@,
            !has_vault_entry(old(self).vaults@, id@) ==> exists|e: VaultHistoryEntry|
                #[trigger] fresh_vault_entry(e, id@, name@, path@) && final(self).vaults@ == capped(
                    insert_desc_vault(old(self).vaults@, e),
                    old(self).max_items as int,
                ),
            has_vault_entry(old(self).vaults@, id@) ==> exists|i: int, e: VaultHistoryEntry|
                {
                    &&& 0 <= i < old(self).vaults@.len()
                    &&& old(self).vaults@[i].id@ == id@
                    &&& forall|j: int| 0 <= j < i ==> old(self).vaults@[j].id@ != id@
                    &&& #[trigger] updated_vault_entry(e, old(self).vaults@[i], name@, path@)
                    &&& final(self).vaults@ == capped(
                        insert_desc_vault(old(self).vaults@.remove(i), e),
                        old(self).max_items as int,
                    )
                },
            old(self).wf() ==> final(self).wf(),
            old(self).vaults@.len() <= old(self).max_items ==> final(self).vaults@.len() <= old(
                self,
            ).max_items,
    {
        let ghost pre = *self;
        let now = now_iso();
        let n = self.vaults.len();
        let mut i: usize = 0;
        let mut found = false;
        loop
            invariant_except_break
                !found,
            invariant
                *self == pre,
                i <= n,
                n == self.vaults@.len(),
                forall|j: int| 0 <= j < i ==> self.vaults@[j].id@ != id@,
            ensures
                *self == pre,
                n == self.vaults@.len(),
                found ==> i < n && self.vaults@[i as int].id@ == id@ && forall|j: int|
                    0 <= j < i ==> self.vaults@[j].id@ != id@,
                !found ==> !has_vault_entry(self.vaults@, id@),
            decreases n - i,
        {
            if i == n {
                proof {
                    assert(!has_vault_entry(self.vaults@, id@));
                }
                break ;
            }
            if !found && str_eq(self.vaults[i].id.as_str(), id.as_str()) {
                found = true;
                break ;
            }
            i = i + 1;
        }
        if found {
            let mut e = self.vaults.remove(i);
            let ghost prev = e;
            e.name = name;
            e.path = path;
            e.last_opened = now;
            e.open_count = if e.open_count == u32::MAX {
                e.open_count
            } else {
                e.open_count + 1
            };
            proof {
                assert(updated_vault_entry(e, pre.vaults@[i as int], name@, path@));
                if pre.wf() {
                    assert forall|a: int, b: int|
                        0 <= a < b < self.vaults@.len() implies lex_le(
                        vkey(self.vaults@[b]),
                        vkey(self.vaults@[a]),
                    ) && self.vaults@[a].id@ != self.vaults@[b].id@ by {
                        assert(self.vaults@ == pre.vaults@.remove(i as int));
                    }
                }
            }
            let ghost removed = self.vaults@;
            insert_vault_sorted(&mut self.vaults, e);
            proof {
                lemma_insert_desc_vault_props(removed, e);
                if pre.wf() {
                    assert forall|a: int|
                        0 <= a < removed.len() implies removed[a].id@ != e.id@ by {
                        if a < i {
                            assert(removed[a] == pre.vaults@[a]);
                        } else {
                            assert(removed[a] == pre.vaults@[a + 1]);
                        }
                    }
                    lemma_insert_desc_vault_unique(removed, e);
                }
            }
        } else {
            let e = VaultHistoryEntry {
                id,
                name,
                path,
                last_opened: now.clone(),
                open_count: 1,
                added_at: now,
            };
            let ghost olds = self.vaults@;
            insert_vault_sorted(&mut self.vaults, e);
            proof {
                assert(fresh_vault_entry(e, e.id@, e.name@, e.path@));
                lemma_insert_desc_vault_props(olds, e);
                if pre.wf() {
                    assert forall|a: int| 0 <= a < olds.len() implies olds[a].id@ != e.id@ by {}
                    lemma_insert_desc_vault_unique(olds, e);
                }
            }
        }
        if self.vaults.len() > self.max_items {
            let ghost before = self.vaults@;
            self.vaults.truncate(self.max_items);
            proof {
                assert(self.vaults@ == before.take(pre.max_items as int));
                assert forall|a: int, b: int|
                    0 <= a < b < self.vaults@.len() implies (self.vaults@[a] == before[a]
                    && self.vaults@[b] == before[b]) by {}
            }
        }
    }

    /// Adds or refreshes the canvas entry with this id, re-sorts it into
    /// place, and evicts entries beyond the cap, oldest first.
    pub fn track_canvas(&mut self, id: String, vault_id: String, name: String, path: String)
        ensures
            final(self).max_items == old(self).max_items,
            final(self).vaults@ == old(self).vaults@,
            !has_canvas_entry(old(self).canvases@, id@) ==> exists|e: CanvasHistoryEntry|
                #[trigger] fresh_canvas_entry(e, id@, vault_id@, name@, path@)
                    && final(self).canvases@ == capped(
                    insert_desc_canvas(old(self).canvases@, e),
                    old(self).max_items as int,
                ),
            has_canvas_entry(old(self).canvases@, id@) ==> exists|i: int, e: CanvasHistoryEntry|
                {
                    &&& 0 <= i < old(self).canvases@.len()
                    &&& old(self).canvases@[i].id@ == id@
                    &&& forall|j: int| 0 <= j < i ==> old(self).canvases@[j].id@ != id@
                    &&& #[trigger] updated_canvas_entry(e, old(self).canvases@[i], name@, path@)
                    &&& final(self).canvases@ == capped(
                        insert_desc_canvas(old(self).canvases@.remove(i), e),
                        old(self).max_items as int,
                    )
                },
            old(self).wf() ==> final(self).wf(),
            old(self).canvases@.len() <= old(self).max_items ==> final(self).canvases@.len() <= old(
                self,
            ).max_items,
    {
        let ghost pre = *self;
        let now = now_iso();
        let n = self.canvases.len();
        let mut i: usize = 0;
        let mut found = false;
        loop
            invariant_except_break
                !found,
            invariant
                *self == pre,
                i <= n,
                n == self.canvases@.len(),
                forall|j: int| 0 <= j < i ==> self.canvases@[j].id@ != id@,
            ensures
                *self == pre,
                n == self.canvases@.len(),
                found ==> i < n && self.canvases@[i as int].id@ == id@ && forall|j: int|
                    0 <= j < i ==> self.canvases@[j].id@ != id@,
                !found ==> !has_canvas_entry(self.canvases@, id@),
            decreases n - i,
        {
            if i == n {
                proof {
                    assert(!has_canvas_entry(self.canvases@, id@));
                }
                break ;
            }
            if !found && str_eq(self.canvases[i].id.as_str(), id.as_str()) {
                found = true;
                break ;
            }
            i = i + 1;
        }
        if found {
            let mut e = self.canvases.remove(i);
            e.name = name;
            e.path = path;
            e.last_opened = now;
            e.open_count = if e.open_count == u32::MAX {
                e.open_count
            } else {
                e.open_count + 1
            };
            proof {
                assert(updated_canvas_entry(e, pre.canvases@[i as int], name@, path@));
                if pre.wf() {
                    assert forall|a: int, b: int|
                        0 <= a < b < self.canvases@.len() implies lex_le(
                        ckey(self.canvases@[b]),
                        ckey(self.canvases@[a]),
                    ) && self.canvases@[a].id@ != self.canvases@[b].id@ by {
                        assert(self.canvases@ == pre.canvases@.remove(i as int));
                    }
                }
            }
            let ghost removed = self.canvases@;
            insert_canvas_sorted(&mut self.canvases, e);
            proof {
                lemma_insert_desc_canvas_props(removed, e);
                if pre.wf() {
                    assert forall|a: int|
                        0 <= a < removed.len() implies removed[a].id@ != e.id@ by {
                        if a < i {
                            assert(removed[a] == pre.canvases@[a]);
                        } else {
                            assert(removed[a] == pre.canvases@[a + 1]);
                        }
                    }
                    lemma_insert_desc_canvas_unique(removed, e);
                }
            }
        } else {
            let e = CanvasHistoryEntry {
                id,
                vault_id,
                name,
                path,
                last_opened: now.clone(),
                open_count: 1,
                added_at: now,
            };
            let ghost olds = self.canvases@;
            insert_canvas_sorted(&mut self.canvases, e);
            proof {
                assert(fresh_canvas_entry(e, e.id@, e.vault_id@, e.name@, e.path@));
                lemma_insert_desc_canvas_props(olds, e);
                if pre.wf() {
                    assert forall|a: int| 0 <= a < olds.len() implies olds[a].id@ != e.id@ by {}
                    lemma_insert_desc_canvas_unique(olds, e);
                }
            }
        }
        if self.canvases.len() > self.max_items {
            let ghost before = self.canvases@;
            self.canvases.truncate(self.max_items);
            proof {
                assert(self.canvases@ == before.take(pre.max_items as int));
            }
        }
    }

    /// Removes the vault entry with this id and, cascading, every canvas
    /// entry whose `vault_id` matches it.
    pub fn remove_vault(&mut self, vault_id: &str)
        ensures
            final(self).vaults@ == old(self).vaults@.filter(vault_not_named(vault_id@)),
            final(self).canvases@ == old(self).canvases@.filter(canvas_of_other_vault(vault_id@)),
            final(self).max_items == old(self).max_items,
            old(self).wf() ==> final(self).wf(),
    {
        let mut vaults: Vec<VaultHistoryEntry> = Vec::new();
        core::mem::swap(&mut vaults, &mut self.vaults);
        self.vaults = retain_vault_entries(vaults, vault_id);
        let mut canvases: Vec<CanvasHistoryEntry> = Vec::new();
        core::mem::swap(&mut canvases, &mut self.canvases);
        self.canvases = retain_canvas_entries_not_in_vault(canvases, vault_id);
        proof {
            if old(self).wf() {
                lemma_filter_pairwise(
                    old(self).vaults@,
                    vault_not_named(vault_id@),
                    |a: VaultHistoryEntry, b: VaultHistoryEntry|
                        lex_le(vkey(b), vkey(a)) && a.id@ != b.id@,
                );
                lemma_filter_pairwise(
                    old(self).canvases@,
                    canvas_of_other_vault(vault_id@),
                    |a: CanvasHistoryEntry, b: CanvasHistoryEntry|
                        lex_le(ckey(b), ckey(a)) && a.id@ != b.id@,
                );
            }
        }
    }

    /// Removes only the canvas entry with this id.
    pub fn remove_canvas(&mut self, canvas_id: &str)
        ensures
            final(self).canvases@ == old(self).canvases@.filter(canvas_not_named(canvas_id@)),
            final(self).vaults@ == old(self).vaults@,
            final(self).max_items == old(self).max_items,
            old(self).wf() ==> final(self).wf(),
    {
        let mut canvases: Vec<CanvasHistoryEntry> = Vec::new();
        core::mem::swap(&mut canvases, &mut self.canvases);
        self.canvases = retain_canvas_entries_not_named(canvases, canvas_id);
        proof {
            if old(self).wf() {
                lemma_filter_pairwise(
                    old(self).canvases@,
                    canvas_not_named(canvas_id@),
                    |a: CanvasHistoryEntry, b: CanvasHistoryEntry|
                        lex_le(ckey(b), ckey(a)) && a.id@ != b.id@,
                );
            }
        }
    }

    /// The most recent vault entries, at most `limit` of them.
    pub fn recent_vaults(&self, limit: usize) -> (r: Vec<VaultHistoryEntry>)
        ensures
            r@ == capped(self.vaults@, limit as int),
    {
        let mut r: Vec<VaultHistoryEntry> = Vec::new();
        let mut i: usize = 0;
        while i < self.vaults.len() && i < limit
            invariant
                i <= self.vaults@.len(),
                i <= limit,
                r@ =~= self.vaults@.take(i as int),
            decreases self.vaults@.len() - i,
        {
            r.push(self.vaults[i].duplicate());
            proof {
                assert(r@ =~= self.vaults@.take(i + 1));
            }
            i = i + 1;
        }
        proof {
            assert(self.vaults@.take(self.vaults@.len() as int) =~= self.vaults@);
        }
        r
    }

    /// The most recent canvas entries, optionally only those of one
    /// vault, at most `limit` of them.
    pub fn recent_canvases(&self, vault_id: Option<&str>, limit: usize) -> (r: Vec<
        CanvasHistoryEntry,
    >)
        ensures
            vault_id matches Some(vid) ==> r@ == capped(
                self.canvases@.filter(
                    |c: CanvasHistoryEntry| c.vault_id@ == vid@,
                ),
                limit as int,
            ),
            vault_id is None ==> r@ == capped(self.canvases@, limit as int),
    {
        broadcast use Seq::lemma_filter_push;

        match vault_id {
            None => {
                let mut r: Vec<CanvasHistoryEntry> = Vec::new();
                let mut i: usize = 0;
                while i < self.canvases.len() && i < limit
                    invariant
                        i <= self.canvases@.len(),
                        i <= limit,
                        r@ =~= self.canvases@.take(i as int),
                    decreases self.canvases@.len() - i,
                {
                    r.push(self.canvases[i].duplicate());
                    proof {
                        assert(r@ =~= self.canvases@.take(i + 1));
                    }
                    i = i + 1;
                }
                proof {
                    assert(self.canvases@.take(self.canvases@.len() as int) =~= self.canvases@);
                }
                r
            },
            Some(vid) => {
                let ghost p = |c: CanvasHistoryEntry| c.vault_id@ == vid@;
                let mut all: Vec<CanvasHistoryEntry> = Vec::new();
                let mut i: usize = 0;
                proof {
                    assert(self.canvases@.take(0).filter(p) =~= Seq::<
                        CanvasHistoryEntry,
                    >::empty()) by {
                        reveal(Seq::filter);
                        assert(self.canvases@.take(0) =~= Seq::<CanvasHistoryEntry>::empty());
                    }
                }
                while i < self.canvases.len()
                    invariant
                        i <= self.canvases@.len(),
                        all@ =~= self.canvases@.take(i as int).filter(p),
                        p == (|c: CanvasHistoryEntry| c.vault_id@ == vid@),
                    decreases self.canvases@.len() - i,
                {
                    let keep = str_eq(self.canvases[i].vault_id.as_str(), vid);
                    proof {
                        let t0 = self.canvases@.take(i as int);
                        assert(self.canvases@.take(i + 1) =~= t0.push(
                            self.canvases@[i as int],
                        ));
                        t0.lemma_filter_push(self.canvases@[i as int], p);
                        assert(p(self.canvases@[i as int]) == keep);
                    }
                    if keep {
                        all.push(self.canvases[i].duplicate());
                    }
                    i = i + 1;
                }
                proof {
                    assert(self.canvases@.take(self.canvases@.len() as int) =~= self.canvases@);
                }
                if all.len() > limit {
                    all.truncate(limit);
                }
                all
            },
        }
    }

    /// The vault entry with this id, if any.
    pub fn find_vault(&self, vault_id: &str) -> (r: Option<&VaultHistoryEntry>)
        ensures
            r matches Some(e) ==> e.id@ == vault_id@ && self.vaults@.contains(*e),
            r is None ==> !has_vault_entry(self.vaults@, vault_id@),
    {
        let mut i: usize = 0;
        while i < self.vaults.len()
            invariant
                i <= self.vaults@.len(),
                forall|j: int| 0 <= j < i ==> self.vaults@[j].id@ != vault_id@,
            decreases self.vaults@.len() - i,
        {
            if str_eq(self.vaults[i].id.as_str(), vault_id) {
                return Some(&self.vaults[i]);
            }
            i = i + 1;
        }
        None
    }

    /// The canvas entry with this id, if any.
    pub fn find_canvas(&self, canvas_id: &str) -> (r: Option<&CanvasHistoryEntry>)
        ensures
            r matches Some(e) ==> e.id@ == canvas_id@ && self.canvases@.contains(*e),
            r is None ==> !has_canvas_entry(self.canvases@, canvas_id@),
    {
        let mut i: usize = 0;
        while i < self.canvases.len()
            invariant
                i <= self.canvases@.len(),
                forall|j: int| 0 <= j < i ==> self.canvases@[j].id@ != canvas_id@,
            decreases self.canvases@.len() - i,
        {
            if str_eq(self.canvases[i].id.as_str(), canvas_id) {
                return Some(&self.canvases[i]);
            }
            i = i + 1;
        }
        None
    }
}


/// Tracking a vault id for the first time and then tracking the same id
/// again leaves exactly one entry with that id, and its open count is
/// two; the collection stays within the cap.
pub proof fn lemma_track_vault_twice(
    s: Seq<VaultHistoryEntry>,
    e1: VaultHistoryEntry,
    i: int,
    e2: VaultHistoryEntry,
    max: int,
)
    requires
        sorted_desc_vaults(s),
        unique_vault_ids(s),
        s.len() < max,
        !has_vault_entry(s, e1.id@),
        e1.open_count == 1,
        0 <= i < insert_desc_vault(s, e1).len(),
        insert_desc_vault(s, e1)[i].id@ == e1.id@,
        updated_vault_entry(e2, insert_desc_vault(s, e1)[i], e2.name@, e2.path@),
    ensures
        insert_desc_vault(s, e1)[i] == e1,
        e2.open_count == 2,
        has_vault_entry(
            capped(insert_desc_vault(insert_desc_vault(s, e1).remove(i), e2), max),
            e1.id@,
        ),
        unique_vault_ids(capped(insert_desc_vault(insert_desc_vault(s, e1).remove(i), e2), max)),
        capped(insert_desc_vault(insert_desc_vault(s, e1).remove(i), e2), max).len() <= max,
{
    let s1 = insert_desc_vault(s, e1);
    lemma_insert_desc_vault_props(s, e1);
    lemma_insert_desc_vault_unique(s, e1);
    if s1[i] != e1 {
        assert(s.contains(s1[i]));
        let w = choose|w: int| 0 <= w < s.len() && s[w] == s1[i];
        assert(s[w].id@ == e1.id@);
        assert(has_vault_entry(s, e1.id@));
        assert(false);
    }
    let s2 = s1.remove(i);
    assert forall|a: int| 0 <= a < s2.len() implies s2[a].id@ != e2.id@ by {
        if a < i {
            assert(s2[a] == s1[a]);
        } else {
            assert(s2[a] == s1[a + 1]);
        }
        if s2[a] == e1 {
            assert(unique_vault_ids(s1));
            assert(false);
        } else {
            assert(s.contains(s2[a]));
            let w = choose|w: int| 0 <= w < s.len() && s[w] == s2[a];
            assert(s[w] == s2[a]);
        }
    }
    assert forall|a: int, b: int| 0 <= a < b < s2.len() implies s2[a].id@ != s2[b].id@ by {
        assert(s2 == s1.remove(i));
    }
    let s3 = insert_desc_vault(s2, e2);
    lemma_insert_desc_vault_props(s2, e2);
    lemma_insert_desc_vault_unique(s2, e2);
    assert(s3.len() == s.len() + 1 <= max);
    assert(capped(s3, max) == s3);
    let k = choose|k: int| 0 <= k < s3.len() && s3[k] == e2;
    assert(s3[k].id@ == e1.id@);
}

} // verus!

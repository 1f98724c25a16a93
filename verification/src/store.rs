//! The conversation history: one table of exchanges, keyed by id and listed
//! newest first.
//!
//! The table lives in memory; the host mirrors each accepted write to durable
//! storage and loads the table from it at start.

use vstd::prelude::*;
use crate::models::{MemoryEntry, Timestamp};
use crate::text::{contains_text, occurs_in, same_text};

verus! {

/// Why a write was refused.
#[derive(Debug, Clone, Copy, PartialEq, Eq, Structural)]
pub enum PersistError {
    /// The record has no id.
    EmptyId,
}

/// Where the record with `id` stands in `s`: the first index that holds it,
/// or the length of `s` where none does.
pub open spec fn position_of(s: Seq<MemoryEntry>, id: Seq<char>) -> int
    decreases s.len(),
{
    if s.len() == 0 {
        0
    } else if s[0].id@ == id {
        0
    } else {
        1 + position_of(s.drop_first(), id)
    }
}

/// Where a record of time `at` is put into `s`: behind the leading records
/// that are not older than it, so behind those of the same time too.
pub open spec fn rank_of(s: Seq<MemoryEntry>, at: Timestamp) -> int
    decreases s.len(),
{
    if s.len() == 0 {
        0
    } else if s[0].timestamp.before(at) {
        0
    } else {
        1 + rank_of(s.drop_first(), at)
    }
}

/// `s` without the record with `id`.
pub open spec fn without_id(s: Seq<MemoryEntry>, id: Seq<char>) -> Seq<MemoryEntry> {
    if position_of(s, id) < s.len() {
        s.remove(position_of(s, id))
    } else {
        s
    }
}

/// The table after `entry` was written to the table `s`: a record with the
/// same id is gone, and `entry` stands by its time, last among its equals.
pub open spec fn saved(s: Seq<MemoryEntry>, entry: MemoryEntry) -> Seq<MemoryEntry> {
    let rest = without_id(s, entry.id@);
    rest.insert(rank_of(rest, entry.timestamp), entry)
}

/// The record with `id` in `s`, if there is one.
pub open spec fn found(s: Seq<MemoryEntry>, id: Seq<char>) -> Option<MemoryEntry> {
    if position_of(s, id) < s.len() {
        Some(s[position_of(s, id)])
    } else {
        None
    }
}

/// The page of `s` that skips `offset` records and holds at most `limit`.
pub open spec fn page(s: Seq<MemoryEntry>, limit: nat, offset: nat) -> Seq<MemoryEntry> {
    if offset >= s.len() {
        Seq::empty()
    } else if offset + limit >= s.len() {
        s.subrange(offset as int, s.len() as int)
    } else {
        s.subrange(offset as int, (offset + limit) as int)
    }
}

/// `query` is a substring of the message or of the response of `entry`.
pub open spec fn mentions(entry: MemoryEntry, query: Seq<char>) -> bool {
    occurs_in(entry.message@, query) || occurs_in(entry.response@, query)
}

/// The records of `s` that mention `query`, in the order of `s`.
pub open spec fn mentioning(s: Seq<MemoryEntry>, query: Seq<char>) -> Seq<MemoryEntry>
    decreases s.len(),
{
    if s.len() == 0 {
        Seq::empty()
    } else if mentions(s.last(), query) {
        mentioning(s.drop_last(), query).push(s.last())
    } else {
        mentioning(s.drop_last(), query)
    }
}

/// The first `limit` records of `s`, all of them where it has fewer.
pub open spec fn first_of(s: Seq<MemoryEntry>, limit: nat) -> Seq<MemoryEntry> {
    if limit >= s.len() {
        s
    } else {
        s.take(limit as int)
    }
}

/// The table after `rows` were written to an empty one, one after the other
/// in their order, those without an id passed over.
pub open spec fn loaded(rows: Seq<MemoryEntry>) -> Seq<MemoryEntry>
    decreases rows.len(),
{
    if rows.len() == 0 {
        Seq::empty()
    } else if rows.last().id@.len() == 0 {
        loaded(rows.drop_last())
    } else {
        saved(loaded(rows.drop_last()), rows.last())
    }
}

/// A table is well formed when every id is non-empty and occurs once, and
/// no record stands before a newer one.
pub open spec fn well_formed(s: Seq<MemoryEntry>) -> bool {
    &&& forall|i: int| 0 <= i < s.len() ==> (#[trigger] s[i]).id@.len() > 0
    &&& forall|i: int, j: int| 0 <= i < j < s.len() ==> (#[trigger] s[i]).id@ != (#[trigger] s[j]).id@
    &&& forall|i: int, j: int|
        0 <= i < j < s.len() ==> !(#[trigger] s[i]).timestamp.before((#[trigger] s[j]).timestamp)
}

/// `p` is the first index of `s` that holds `id`, or the length of `s` where
/// none does.
pub proof fn lemma_position_of(s: Seq<MemoryEntry>, id: Seq<char>, p: int)
    requires
        0 <= p <= s.len(),
        forall|j: int| 0 <= j < p ==> (#[trigger] s[j]).id@ != id,
        p < s.len() ==> s[p].id@ == id,
    ensures
        position_of(s, id) == p,
    decreases s.len(),
{
    if s.len() > 0 && p > 0 {
        let rest = s.drop_first();
        assert forall|j: int| 0 <= j < p - 1 implies (#[trigger] rest[j]).id@ != id by {
            assert(rest[j] == s[j + 1]);
        }
        lemma_position_of(rest, id, p - 1);
    }
}

/// What `position_of` returns: an index up to the length, with `id` at it
/// where it is an index, and at no index before it.
pub proof fn lemma_position_of_is_first(s: Seq<MemoryEntry>, id: Seq<char>)
    ensures
        0 <= position_of(s, id) <= s.len(),
        forall|j: int| 0 <= j < position_of(s, id) ==> (#[trigger] s[j]).id@ != id,
        position_of(s, id) < s.len() ==> s[position_of(s, id)].id@ == id,
    decreases s.len(),
{
    if s.len() > 0 && s[0].id@ != id {
        let rest = s.drop_first();
        lemma_position_of_is_first(rest, id);
        assert forall|j: int| 0 <= j < position_of(s, id) implies (#[trigger] s[j]).id@ != id by {
            if j > 0 {
                assert(s[j] == rest[j - 1]);
            }
        }
    }
}

/// `p` is the first index of `s` whose record is older than `at`, or the
/// length of `s` where none is.
pub proof fn lemma_rank_of(s: Seq<MemoryEntry>, at: Timestamp, p: int)
    requires
        0 <= p <= s.len(),
        forall|j: int| 0 <= j < p ==> !(#[trigger] s[j]).timestamp.before(at),
        p < s.len() ==> s[p].timestamp.before(at),
    ensures
        rank_of(s, at) == p,
    decreases s.len(),
{
    if s.len() > 0 && p > 0 {
        let rest = s.drop_first();
        assert forall|j: int| 0 <= j < p - 1 implies !(#[trigger] rest[j]).timestamp.before(at) by {
            assert(rest[j] == s[j + 1]);
        }
        lemma_rank_of(rest, at, p - 1);
    }
}

/// What `rank_of` returns: an index up to the length, with a record older
/// than `at` where it is an index, and none such before it.
pub proof fn lemma_rank_of_is_first(s: Seq<MemoryEntry>, at: Timestamp)
    ensures
        0 <= rank_of(s, at) <= s.len(),
        forall|j: int| 0 <= j < rank_of(s, at) ==> !(#[trigger] s[j]).timestamp.before(at),
        rank_of(s, at) < s.len() ==> s[rank_of(s, at)].timestamp.before(at),
    decreases s.len(),
{
    if s.len() > 0 && !s[0].timestamp.before(at) {
        let rest = s.drop_first();
        lemma_rank_of_is_first(rest, at);
        assert forall|j: int| 0 <= j < rank_of(s, at) implies !(#[trigger] s[j]).timestamp.before(at) by {
            if j > 0 {
                assert(s[j] == rest[j - 1]);
            }
        }
    }
}

/// Writing to a well-formed table leaves it well formed, where the record
/// has an id.
pub proof fn lemma_saved_well_formed(s: Seq<MemoryEntry>, entry: MemoryEntry)
    requires
        well_formed(s),
        entry.id@.len() > 0,
    ensures
        well_formed(saved(s, entry)),
        position_of(saved(s, entry), entry.id@) == rank_of(without_id(s, entry.id@), entry.timestamp),
{
    let id = entry.id@;
    let p = position_of(s, id);
    lemma_position_of_is_first(s, id);
    let rest = without_id(s, id);
    assert forall|i: int| 0 <= i < rest.len() implies (#[trigger] rest[i]).id@ != id by {
        if p < s.len() {
            if i < p {
                assert(rest[i] == s[i]);
            } else {
                assert(rest[i] == s[i + 1]);
            }
        }
    }
    assert(well_formed(rest)) by {
        if p < s.len() {
            assert forall|i: int| 0 <= i < rest.len() implies exists|k: int|
                0 <= k < s.len() && k == (if i < p { i } else { i + 1 }) && #[trigger] rest[i] == s[k] by {
                let k = if i < p { i } else { i + 1 };
                assert(rest[i] == s[k]);
            }
            assert forall|i: int, j: int| 0 <= i < j < rest.len() implies (#[trigger] rest[i]).id@ != (
            #[trigger] rest[j]).id@ && !rest[i].timestamp.before(rest[j].timestamp) by {
                let ki = if i < p { i } else { i + 1 };
                let kj = if j < p { j } else { j + 1 };
                assert(rest[i] == s[ki]);
                assert(rest[j] == s[kj]);
            }
            assert forall|i: int| 0 <= i < rest.len() implies (#[trigger] rest[i]).id@.len() > 0 by {
                let ki = if i < p { i } else { i + 1 };
                assert(rest[i] == s[ki]);
            }
        }
    }
    let r = rank_of(rest, entry.timestamp);
    lemma_rank_of_is_first(rest, entry.timestamp);
    let out = saved(s, entry);
    assert(out == rest.insert(r, entry));
    assert forall|i: int| 0 <= i < out.len() implies (#[trigger] out[i]).id@.len() > 0 by {
        if i < r {
            assert(out[i] == rest[i]);
        } else if i > r {
            assert(out[i] == rest[i - 1]);
        }
    }
    assert forall|i: int, j: int| 0 <= i < j < out.len() implies (#[trigger] out[i]).id@ != (
    #[trigger] out[j]).id@ && !out[i].timestamp.before(out[j].timestamp) by {
        if i < r {
            assert(out[i] == rest[i]);
        } else if i > r {
            assert(out[i] == rest[i - 1]);
        }
        if j < r {
            assert(out[j] == rest[j]);
        } else if j > r {
            assert(out[j] == rest[j - 1]);
        }
        if i == r {
            // every record from `r` on is older than the one at `r`
            assert(rest[r].timestamp.before(entry.timestamp));
            if j - 1 > r {
                assert(!rest[r].timestamp.before(rest[j - 1].timestamp));
            }
        }
    }
    assert forall|j: int| 0 <= j < r implies (#[trigger] out[j]).id@ != id by {
        assert(out[j] == rest[j]);
    }
    assert(out[r] == entry);
    lemma_position_of(out, id, r);
}

/// The conversation history.
pub struct Database {
    entries: Vec<MemoryEntry>,
}

impl View for Database {
    type V = Seq<MemoryEntry>;

    closed spec fn view(&self) -> Seq<MemoryEntry> {
        self.entries@
    }
}

impl Database {
    /// The table is well formed: see `well_formed`.
    pub open spec fn wf(&self) -> bool {
        well_formed(self@)
    }

    /// An empty table.
    pub fn new() -> (db: Database)
        ensures
            db.wf(),
            db@ == Seq::<MemoryEntry>::empty(),
    {
        Database { entries: Vec::new() }
    }

    /// The table that holds `rows`, written one after the other in their
    /// order. Rows without an id are passed over.
    pub fn load(rows: &Vec<MemoryEntry>) -> (db: Database)
        ensures
            db.wf(),
            db@ == loaded(rows@),
    {
        let mut db = Database::new();
        let mut i: usize = 0;
        while i < rows.len()
            invariant
                i <= rows@.len(),
                db.wf(),
                db@ == loaded(rows@.take(i as int)),
            decreases rows@.len() - i,
        {
            proof {
                assert(rows@.take(i + 1).drop_last() =~= rows@.take(i as int));
            }
            let _ = db.save_memory(&rows[i]);
            i += 1;
        }
        proof {
            assert(rows@.take(i as int) =~= rows@);
        }
        db
    }

    /// Whether the table holds no record.
    pub fn is_empty(&self) -> (empty: bool)
        ensures
            empty == (self@.len() == 0),
    {
        self.entries.len() == 0
    }

    /// The number of records.
    pub fn len(&self) -> (n: usize)
        ensures
            n == self@.len(),
    {
        self.entries.len()
    }

    /// Writes `entry`, in place of the record with the same id where there is
    /// one. A record without an id is refused, and the table stays as it is.
    pub fn save_memory(&mut self, entry: &MemoryEntry) -> (result: Result<(), PersistError>)
        requires
            old(self).wf(),
        ensures
            final(self).wf(),
            entry.id@.len() == 0 ==> result == Err::<(), PersistError>(PersistError::EmptyId) && final(self)@
                == old(self)@,
            entry.id@.len() > 0 ==> result.is_ok() && final(self)@ == saved(old(self)@, *entry),
    {
        if entry.id.as_str().is_empty() {
            return Err(PersistError::EmptyId);
        }
        let ghost before = self.entries@;
        let at = self.index_of_id(entry.id.as_str());
        if at < self.entries.len() {
            self.entries.remove(at);
        }
        let ghost rest = self.entries@;
        let mut slot: usize = 0;
        while slot < self.entries.len() && !self.entries[slot].timestamp.is_before(entry.timestamp)
            invariant
                slot <= self.entries.len(),
                self.entries@ == rest,
                forall|j: int| 0 <= j < slot ==> !(#[trigger] rest[j]).timestamp.before(entry.timestamp),
            decreases self.entries.len() - slot,
        {
            slot += 1;
        }
        proof {
            lemma_rank_of(rest, entry.timestamp, slot as int);
            lemma_saved_well_formed(before, *entry);
        }
        self.entries.insert(slot, entry.clone());
        Ok(())
    }

    /// The index of the record with `id`, or the number of records where
    /// there is none.
    fn index_of_id(&self, id: &str) -> (at: usize)
        ensures
            at == position_of(self@, id@),
            at <= self@.len(),
    {
        let mut at: usize = 0;
        while at < self.entries.len() && !same_text(self.entries[at].id.as_str(), id)
            invariant
                at <= self.entries.len(),
                forall|j: int| 0 <= j < at ==> (#[trigger] self.entries@[j]).id@ != id@,
            decreases self.entries.len() - at,
        {
            at += 1;
        }
        proof {
            lemma_position_of(self.entries@, id@, at as int);
        }
        at
    }

    /// The record with `id`, if there is one.
    pub fn get_memory_by_id(&self, id: &str) -> (entry: Option<MemoryEntry>)
        ensures
            entry == found(self@, id@),
    {
        let at = self.index_of_id(id);
        if at < self.entries.len() {
            Some(self.entries[at].clone())
        } else {
            None
        }
    }

    /// One page of the history, newest first: the records after the first
    /// `offset`, at most `limit` of them.
    pub fn get_memory(&self, limit: u32, offset: u32) -> (entries: Vec<MemoryEntry>)
        ensures
            entries@ == page(self@, limit as nat, offset as nat),
    {
        let mut out: Vec<MemoryEntry> = Vec::new();
        let n = self.entries.len();
        if offset as usize >= n {
            assert(out@ =~= page(self@, limit as nat, offset as nat));
            return out;
        }
        let start: usize = offset as usize;
        let end: usize = if limit as usize >= n - start {
            n
        } else {
            start + limit as usize
        };
        let mut i: usize = start;
        while i < end
            invariant
                start <= i <= end <= n,
                n == self.entries@.len(),
                out@ == self.entries@.subrange(start as int, i as int),
            decreases end - i,
        {
            out.push(self.entries[i].clone());
            proof {
                assert(out@ =~= self.entries@.subrange(start as int, i + 1));
            }
            i += 1;
        }
        out
    }

    /// The newest records that mention `query`, at most `limit` of them,
    /// newest first.
    pub fn search_memory(&self, query: &str, limit: u32) -> (entries: Vec<MemoryEntry>)
        ensures
            entries@ == first_of(mentioning(self@, query@), limit as nat),
    {
        let mut out: Vec<MemoryEntry> = Vec::new();
        let mut i: usize = 0;
        while i < self.entries.len() && out.len() < limit as usize
            invariant
                i <= self.entries.len(),
                out@.len() <= limit,
                out@ == mentioning(self.entries@.take(i as int), query@),
            decreases self.entries.len() - i,
        {
            let entry = &self.entries[i];
            proof {
                assert(self.entries@.take(i + 1).drop_last() =~= self.entries@.take(i as int));
            }
            if contains_text(entry.message.as_str(), query) || contains_text(entry.response.as_str(), query) {
                out.push(entry.clone());
            }
            i += 1;
        }
        proof {
            lemma_mentioning_prefix(self.entries@, query@, i as int);
            assert(self.entries@.take(self.entries@.len() as int) =~= self.entries@);
        }
        out
    }
}

/// The hits among the first `n` records are the first of all the hits.
pub proof fn lemma_mentioning_prefix(s: Seq<MemoryEntry>, query: Seq<char>, n: int)
    requires
        0 <= n <= s.len(),
    ensures
        mentioning(s.take(n), query).is_prefix_of(mentioning(s, query)),
    decreases s.len() - n,
{
    if n == s.len() {
        assert(s.take(n) =~= s);
    } else {
        lemma_mentioning_prefix(s, query, n + 1);
        assert(s.take(n + 1).drop_last() =~= s.take(n));
    }
}

/// Where a written record stands: no record before it is older than it,
/// and every record behind it is. So among records of one time the one
/// written last is listed last.
pub proof fn lemma_saved_stands_behind_its_equals(s: Seq<MemoryEntry>, entry: MemoryEntry)
    requires
        well_formed(s),
        entry.id@.len() > 0,
    ensures
        0 <= position_of(saved(s, entry), entry.id@) < saved(s, entry).len(),
        saved(s, entry)[position_of(saved(s, entry), entry.id@)] == entry,
        forall|j: int|
            0 <= j < position_of(saved(s, entry), entry.id@) ==> !(#[trigger] saved(s, entry)[j]).timestamp.before(
                entry.timestamp,
            ),
        forall|j: int|
            position_of(saved(s, entry), entry.id@) < j < saved(s, entry).len() ==> (#[trigger] saved(
                s,
                entry,
            )[j]).timestamp.before(entry.timestamp),
{
    let rest = without_id(s, entry.id@);
    let r = rank_of(rest, entry.timestamp);
    lemma_saved_well_formed(s, entry);
    lemma_rank_of_is_first(rest, entry.timestamp);
    let out = saved(s, entry);
    assert(out[r] == entry);
    assert forall|j: int| 0 <= j < r implies !(#[trigger] out[j]).timestamp.before(entry.timestamp) by {
        assert(out[j] == rest[j]);
    }
    assert forall|j: int| r < j < out.len() implies (#[trigger] out[j]).timestamp.before(entry.timestamp) by {
        assert(out[r + 1] == rest[r]);
        assert(out[r + 1].timestamp.before(entry.timestamp));
        if j > r + 1 {
            assert(!out[r + 1].timestamp.before(out[j].timestamp));
        }
    }
}

/// Round trip: a record that was written is the one that a lookup by its id
/// gives back, equal in every field.
pub proof fn lemma_save_then_get(s: Seq<MemoryEntry>, entry: MemoryEntry)
    requires
        well_formed(s),
        entry.id@.len() > 0,
    ensures
        found(saved(s, entry), entry.id@) == Some(entry),
{
    lemma_saved_well_formed(s, entry);
    lemma_rank_of_is_first(without_id(s, entry.id@), entry.timestamp);
}

/// A write touches no other id: a lookup by another id gives what it gave
/// before.
pub proof fn lemma_save_keeps_others(s: Seq<MemoryEntry>, entry: MemoryEntry, id: Seq<char>)
    requires
        well_formed(s),
        entry.id@.len() > 0,
        id != entry.id@,
    ensures
        found(saved(s, entry), id) == found(s, id),
{
    let p = position_of(s, entry.id@);
    lemma_position_of_is_first(s, entry.id@);
    let rest = without_id(s, entry.id@);
    let q = position_of(s, id);
    lemma_position_of_is_first(s, id);
    // where `id` stands once the old record of the written id is gone
    let q_rest = if p < s.len() && p < q { q - 1 } else { q };
    assert forall|j: int| 0 <= j < q_rest implies (#[trigger] rest[j]).id@ != id by {
        if p < s.len() {
            if j < p {
                assert(rest[j] == s[j]);
            } else {
                assert(rest[j] == s[j + 1]);
            }
        }
    }
    if q < s.len() {
        assert(rest[q_rest] == s[q]);
    }
    lemma_position_of(rest, id, q_rest);
    let r = rank_of(rest, entry.timestamp);
    lemma_rank_of_is_first(rest, entry.timestamp);
    let out = saved(s, entry);
    let q_out = if r <= q_rest { q_rest + 1 } else { q_rest };
    assert forall|j: int| 0 <= j < q_out implies (#[trigger] out[j]).id@ != id by {
        if j < r {
            assert(out[j] == rest[j]);
        } else if j > r {
            assert(out[j] == rest[j - 1]);
        }
    }
    if q_rest < rest.len() {
        assert(out[q_out] == rest[q_rest]);
    }
    lemma_position_of(out, id, q_out);
}

/// Upsert: after two writes under one id only the second record can be
/// looked up, no record of the table but it carries the id, and the second
/// write adds no record.
pub proof fn lemma_save_twice_keeps_second(s: Seq<MemoryEntry>, first: MemoryEntry, second: MemoryEntry)
    requires
        well_formed(s),
        first.id@.len() > 0,
        first.id@ == second.id@,
    ensures
        found(saved(saved(s, first), second), first.id@) == Some(second),
        forall|k: int|
            0 <= k < saved(saved(s, first), second).len() && (#[trigger] saved(
                saved(s, first),
                second,
            )[k]).id@ == first.id@ ==> saved(saved(s, first), second)[k] == second,
        saved(saved(s, first), second).len() == saved(s, first).len(),
{
    let once = saved(s, first);
    lemma_saved_well_formed(s, first);
    lemma_rank_of_is_first(without_id(s, first.id@), first.timestamp);
    lemma_save_then_get(once, second);
    let twice = saved(once, second);
    lemma_saved_well_formed(once, second);
    lemma_rank_of_is_first(without_id(once, second.id@), second.timestamp);
    let at = position_of(twice, second.id@);
    assert(twice[at] == second);
    assert forall|k: int| 0 <= k < twice.len() && (#[trigger] twice[k]).id@ == first.id@ implies twice[k]
        == second by {
        if k != at {
            if k < at {
                assert(twice[k].id@ != twice[at].id@);
            } else {
                assert(twice[at].id@ != twice[k].id@);
            }
        }
    }
}

/// Writing is idempotent: the same record written twice leaves the table
/// that one write leaves.
pub proof fn lemma_save_idempotent(s: Seq<MemoryEntry>, entry: MemoryEntry)
    requires
        well_formed(s),
        entry.id@.len() > 0,
    ensures
        saved(saved(s, entry), entry) == saved(s, entry),
{
    let rest = without_id(s, entry.id@);
    let r = rank_of(rest, entry.timestamp);
    lemma_rank_of_is_first(rest, entry.timestamp);
    let once = saved(s, entry);
    lemma_saved_well_formed(s, entry);
    assert(position_of(once, entry.id@) == r);
    assert(once.remove(r) =~= rest);
    assert(without_id(once, entry.id@) == rest);
}

/// Listing is newest first: in every page of a well-formed table no record
/// stands before a newer one.
pub proof fn lemma_page_newest_first(s: Seq<MemoryEntry>, limit: nat, offset: nat)
    requires
        well_formed(s),
    ensures
        forall|i: int, j: int|
            0 <= i < j < page(s, limit, offset).len() ==> !(#[trigger] page(s, limit, offset)[i]).timestamp.before(
                (#[trigger] page(s, limit, offset)[j]).timestamp,
            ),
{
    let view = page(s, limit, offset);
    assert forall|i: int, j: int| 0 <= i < j < view.len() implies !(#[trigger] view[i]).timestamp.before(
        (#[trigger] view[j]).timestamp,
    ) by {
        assert(view[i] == s[offset + i]);
        assert(view[j] == s[offset + j]);
    }
}

/// Pagination: three records written to an empty table in the order of
/// their strictly increasing times are listed newest first, so the first
/// page of two holds the third and the second, in that order.
pub proof fn lemma_first_page_of_three(r1: MemoryEntry, r2: MemoryEntry, r3: MemoryEntry)
    requires
        r1.id@.len() > 0 && r2.id@.len() > 0 && r3.id@.len() > 0,
        r1.id@ != r2.id@ && r1.id@ != r3.id@ && r2.id@ != r3.id@,
        r1.timestamp.before(r2.timestamp),
        r2.timestamp.before(r3.timestamp),
    ensures
        saved(saved(saved(Seq::empty(), r1), r2), r3) == seq![r3, r2, r1],
        page(saved(saved(saved(Seq::empty(), r1), r2), r3), 2, 0) == seq![r3, r2],
{
    let s0 = Seq::<MemoryEntry>::empty();
    lemma_position_of(s0, r1.id@, 0);
    lemma_rank_of(s0, r1.timestamp, 0);
    let s1 = saved(s0, r1);
    assert(s1 =~= seq![r1]);
    lemma_position_of(s1, r2.id@, 1);
    lemma_rank_of(s1, r2.timestamp, 0);
    let s2 = saved(s1, r2);
    assert(s2 =~= seq![r2, r1]);
    lemma_position_of(s2, r3.id@, 2);
    lemma_rank_of(s2, r3.timestamp, 0);
    let s3 = saved(s2, r3);
    assert(s3 =~= seq![r3, r2, r1]);
    assert(page(s3, 2, 0) =~= seq![r3, r2]);
}

/// Search finds what mentions the query: a record is among the hits exactly
/// when it is in the table and mentions the query.
pub proof fn lemma_mentioning_holds(s: Seq<MemoryEntry>, query: Seq<char>, entry: MemoryEntry)
    ensures
        mentioning(s, query).contains(entry) <==> (s.contains(entry) && mentions(entry, query)),
    decreases s.len(),
{
    if s.len() > 0 {
        let front = s.drop_last();
        lemma_mentioning_holds(front, query, entry);
        let hits = mentioning(s, query);
        let front_hits = mentioning(front, query);
        if s.contains(entry) && mentions(entry, query) {
            let k = choose|k: int| 0 <= k < s.len() && s[k] == entry;
            if k < s.len() - 1 {
                assert(front[k] == entry);
                let h = choose|h: int| 0 <= h < front_hits.len() && front_hits[h] == entry;
                assert(hits[h] == entry);
            } else {
                assert(hits[hits.len() - 1] == entry);
            }
        }
        if hits.contains(entry) {
            let h = choose|h: int| 0 <= h < hits.len() && hits[h] == entry;
            if mentions(s.last(), query) && h == hits.len() - 1 {
                assert(s[s.len() - 1] == entry);
            } else {
                assert(front_hits[h] == entry);
                let k = choose|k: int| 0 <= k < front.len() && front[k] == entry;
                assert(s[k] == entry);
            }
        }
    }
}

} // verus!

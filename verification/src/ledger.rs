//! The history ledger: the record linking each natural-language prompt to
//! its generated SQL and execution status, with append, update-on-execute
//! and recent-history retrieval.
//!
//! Identifiers are assigned by the ledger, starting at 1 and increasing by
//! one per appended entry; entries are never deleted. Creation time is kept
//! as a logical timestamp that the ledger itself assigns, so it increases
//! strictly in creation order.

use vstd::prelude::*;

verus! {

/// One persisted record of the ledger.
pub struct HistoryEntry {
    /// Assigned by the ledger; strictly increasing in creation order.
    pub id: u64,
    /// The natural-language prompt the caller submitted.
    pub natural: String,
    /// The SQL text generated for that prompt.
    pub sql: String,
    /// Whether the generated SQL was later submitted for execution under
    /// this entry's id. Moves from `false` to `true` exactly once, never back.
    pub executed: bool,
    /// Logical creation timestamp, assigned by the ledger.
    pub created_at: u64,
}

/// `e` with its executed flag set; every other field is kept.
pub open spec fn with_executed(e: HistoryEntry) -> HistoryEntry {
    HistoryEntry { executed: true, ..e }
}

/// The ledger's entries after `mark_executed(id)`: the entry carrying `id`
/// has its executed flag set, everything else is untouched. Marking an
/// absent id changes nothing.
pub open spec fn mark_spec(s: Seq<HistoryEntry>, id: u64) -> Seq<HistoryEntry> {
    Seq::new(s.len(), |i: int| if s[i].id == id { with_executed(s[i]) } else { s[i] })
}

/// The up-to-`limit` most recently created entries of `s`, newest first.
pub open spec fn recent_spec(s: Seq<HistoryEntry>, limit: int) -> Seq<HistoryEntry> {
    Seq::new(vstd::math::min(limit, s.len() as int) as nat, |i: int| s[s.len() - 1 - i])
}

/// Appending an entry and then listing the single most recent one yields
/// exactly that entry, whatever the ledger held before.
pub proof fn lemma_append_then_recent_one(s: Seq<HistoryEntry>, e: HistoryEntry)
    ensures
        recent_spec(s.push(e), 1) =~= seq![e],
{
}

/// Marking the entry that carries `id` sets its executed flag and keeps its
/// other fields; every entry carrying a different id is untouched.
pub proof fn lemma_mark_sets_flag(s: Seq<HistoryEntry>, id: u64)
    ensures
        forall|i: int|
            0 <= i < s.len() && (#[trigger] s[i]).id == id ==> mark_spec(s, id)[i]
                == with_executed(s[i]),
        forall|i: int|
            0 <= i < s.len() && (#[trigger] s[i]).id != id ==> mark_spec(s, id)[i] == s[i],
{
}

/// Marking the same id twice changes nothing beyond the first call.
pub proof fn lemma_mark_idempotent(s: Seq<HistoryEntry>, id: u64)
    ensures
        mark_spec(mark_spec(s, id), id) =~= mark_spec(s, id),
{
}

/// Marking an id that no entry carries changes nothing at all.
pub proof fn lemma_mark_absent_noop(s: Seq<HistoryEntry>, id: u64)
    requires
        forall|i: int| 0 <= i < s.len() ==> (#[trigger] s[i]).id != id,
    ensures
        mark_spec(s, id) =~= s,
{
}

/// An executed flag, once set, is never cleared by a later marking.
pub proof fn lemma_mark_never_clears(s: Seq<HistoryEntry>, id: u64)
    ensures
        forall|i: int|
            0 <= i < s.len() && (#[trigger] s[i]).executed ==> mark_spec(s, id)[i].executed,
{
}

/// The recent listing never holds more than `limit` entries, and on a
/// well-formed ledger it is ordered strictly by creation time descending.
pub proof fn lemma_recent_bounded_and_ordered(s: Seq<HistoryEntry>, limit: int)
    requires
        0 <= limit,
        ledger_wf(s),
    ensures
        recent_spec(s, limit).len() <= limit,
        forall|i: int, j: int|
            0 <= i < j < recent_spec(s, limit).len() ==> recent_spec(s, limit)[i].created_at
                > recent_spec(s, limit)[j].created_at,
{
}

/// The ledger. Its view is the sequence of entries in creation order.
pub struct HistoryLedger {
    entries: Vec<HistoryEntry>,
}

impl View for HistoryLedger {
    type V = Seq<HistoryEntry>;

    closed spec fn view(&self) -> Seq<HistoryEntry> {
        self.entries@
    }
}

/// Well-formedness of a ledger's entry sequence: ids are assigned
/// sequentially from 1, and the logical creation timestamps equal the ids,
/// so both increase strictly in creation order.
pub open spec fn ledger_wf(s: Seq<HistoryEntry>) -> bool {
    forall|i: int|
        0 <= i < s.len() ==> (#[trigger] s[i]).id == i + 1 && s[i].created_at == i + 1
}

impl HistoryLedger {
    /// The well-formedness invariant every method preserves.
    pub open spec fn wf(&self) -> bool {
        ledger_wf(self@)
    }

    /// An empty ledger.
    pub fn new() -> (l: HistoryLedger)
        ensures
            l.wf(),
            l@ =~= Seq::<HistoryEntry>::empty(),
    {
        HistoryLedger { entries: Vec::new() }
    }

    /// Append a new entry for a freshly generated prompt/SQL pair. The entry
    /// starts unexecuted; the returned id is the newly assigned one, larger
    /// than every id handed out before. Either the full entry is appended
    /// and its id returned, or (on the machine's size limit) nothing is.
    pub fn append(&mut self, natural: String, sql: String) -> (id: u64)
        requires
            old(self).wf(),
            old(self)@.len() < u64::MAX,
        ensures
            final(self).wf(),
            id == old(self)@.len() + 1,
            final(self)@ =~= old(self)@.push(HistoryEntry {
                id: id,
                natural: natural,
                sql: sql,
                executed: false,
                created_at: id,
            }),
    {
        let id: u64 = (self.entries.len() as u64) + 1;
        let entry = HistoryEntry {
            id,
            natural,
            sql,
            executed: false,
            created_at: id,
        };
        self.entries.push(entry);
        id
    }

    /// Set the executed flag of the entry with the given id. An absent id is
    /// a best-effort no-op, never an error; repeating the call changes
    /// nothing further.
    pub fn mark_executed(&mut self, id: u64)
        requires
            old(self).wf(),
        ensures
            final(self).wf(),
            final(self)@ =~= mark_spec(old(self)@, id),
    {
        if 1 <= id && id <= self.entries.len() as u64 {
            let i = (id - 1) as usize;
            let executed_entry = HistoryEntry {
                id: self.entries[i].id,
                natural: self.entries[i].natural.clone(),
                sql: self.entries[i].sql.clone(),
                executed: true,
                created_at: self.entries[i].created_at,
            };
            self.entries.set(i, executed_entry);
            assert(self@ =~= mark_spec(old(self)@, id)) by {
                assert(forall|j: int|
                    0 <= j < old(self)@.len() && j != i ==> (#[trigger] old(self)@[j]).id != id);
            }
        } else {
            assert(self@ =~= mark_spec(old(self)@, id));
        }
    }

    /// The most recently created entries, newest first, truncated to `limit`.
    pub fn recent(&self, limit: usize) -> (r: Vec<HistoryEntry>)
        requires
            self.wf(),
        ensures
            r@ =~= recent_spec(self@, limit as int),
    {
        let n = self.entries.len();
        let count = if limit < n { limit } else { n };
        let mut r: Vec<HistoryEntry> = Vec::new();
        for k in 0..count
            invariant
                count == vstd::math::min(limit as int, n as int),
                n == self.entries@.len(),
                r@.len() == k,
                forall|i: int| 0 <= i < k ==> r@[i] == self@[n - 1 - i],
        {
            let e = &self.entries[n - 1 - k];
            r.push(HistoryEntry {
                id: e.id,
                natural: e.natural.clone(),
                sql: e.sql.clone(),
                executed: e.executed,
                created_at: e.created_at,
            });
        }
        r
    }
}

} // verus!


//! The session multiplexer's bookkeeping: outstanding-call records, fresh
//! id assignment, resolution of inbound responses against those records,
//! cancellation, and the laws that keep concurrent callers from ever
//! being cross-matched.

use vstd::prelude::*;

verus! {

/// One outstanding outbound call: the id it was sent under and the opaque
/// completion handle its caller waits on.
#[derive(Debug, Clone, Copy, PartialEq, Eq, Structural)]
pub struct CallRecord {
    pub id: u32,
    pub handle: u64,
}

/// Where a session stands in its lifetime.
#[derive(Debug, Clone, Copy, PartialEq, Eq, Structural)]
pub enum SessionPhase {
    Handshaking,
    Active,
    Closing,
    Closed,
}

/// The first record bound to `id`, if any.
pub open spec fn spec_find(p: Seq<CallRecord>, id: u32) -> Option<CallRecord>
    decreases p.len(),
{
    if p.len() == 0 {
        None
    } else if p[0].id == id {
        Some(p[0])
    } else {
        spec_find(p.drop_first(), id)
    }
}

/// The records left when the first one bound to `id` is taken out; the
/// sequence is unchanged when none is.
pub open spec fn spec_remove(p: Seq<CallRecord>, id: u32) -> Seq<CallRecord>
    decreases p.len(),
{
    if p.len() == 0 {
        p
    } else if p[0].id == id {
        p.drop_first()
    } else {
        seq![p[0]] + spec_remove(p.drop_first(), id)
    }
}

/// No two records share an id.
pub open spec fn distinct_ids(p: Seq<CallRecord>) -> bool {
    forall|i: int, j: int| 0 <= i < j < p.len() ==> (#[trigger] p[i]).id != (#[trigger] p[j]).id
}

/// A well-formed record table: distinct ids, all below the id counter.
pub open spec fn wf_records(p: Seq<CallRecord>, next_id: u32) -> bool {
    &&& distinct_ids(p)
    &&& forall|i: int| 0 <= i < p.len() ==> (#[trigger] p[i]).id < next_id
}

/// The session-side state the multiplexer mutates: its phase, the counter
/// fresh ids come from, and the outstanding-call table. Both duties of a
/// running session speak to this table alone, so its operations are the
/// places where insert, lookup and remove must stay atomic.
#[derive(Debug)]
pub struct Session {
    pub phase: SessionPhase,
    pub next_id: u32,
    pub pending: Vec<CallRecord>,
}

impl Session {
    /// The table is well formed and the phase is as stored.
    pub open spec fn wf(self) -> bool {
        wf_records(self.pending@, self.next_id)
    }

    /// Whether some record is bound to `id`.
    pub open spec fn has_pending(self, id: u32) -> bool {
        spec_find(self.pending@, id) is Some
    }

    /// A fresh session: handshaking, no outstanding calls.
    pub fn new() -> (s: Session)
        ensures
            s.wf(),
            s.phase == SessionPhase::Handshaking,
            s.pending@.len() == 0,
            s.next_id == 0,
    {
        Session { phase: SessionPhase::Handshaking, next_id: 0, pending: Vec::new() }
    }

    /// The handshake concluded: normal traffic may flow.
    pub fn activate(&mut self)
        requires
            old(self).phase == SessionPhase::Handshaking,
        ensures
            final(self).phase == SessionPhase::Active,
            final(self).next_id == old(self).next_id,
            final(self).pending == old(self).pending,
            old(self).wf() ==> final(self).wf(),
    {
        self.phase = SessionPhase::Active;
    }

    /// The session is being shut down: no new calls are admitted.
    pub fn begin_close(&mut self)
        ensures
            final(self).phase == SessionPhase::Closing,
            final(self).next_id == old(self).next_id,
            final(self).pending == old(self).pending,
            old(self).wf() ==> final(self).wf(),
    {
        self.phase = SessionPhase::Closing;
    }

    /// Registers a new outbound call: assigns the next fresh id — one no
    /// record holds and none ever held since the session began — and
    /// appends the record for the caller waiting on `handle`.
    pub fn begin_call(&mut self, handle: u64) -> (id: u32)
        requires
            old(self).wf(),
            old(self).phase == SessionPhase::Active,
            old(self).next_id < u32::MAX,
        ensures
            final(self).wf(),
            id == old(self).next_id,
            !old(self).has_pending(id),
            final(self).pending@ == old(self).pending@.push(CallRecord { id, handle }),
            final(self).next_id == id + 1,
            final(self).phase == old(self).phase,
    {
        let id = self.next_id;
        proof {
            lemma_find_absent(self.pending@, id);
        }
        self.pending.push(CallRecord { id, handle });
        self.next_id = id + 1;
        proof {
            let p0 = old(self).pending@;
            let p = self.pending@;
            assert forall|i: int| 0 <= i < p.len() implies (#[trigger] p[i]).id
                < self.next_id by {
                if i < p0.len() {
                    assert(p[i] == p0[i]);
                }
            }
        }
        id
    }

    /// Resolves an inbound response or error against the table: the record
    /// bound to that id leaves the table and is returned, every other
    /// record stays untouched; an unknown id — an orphan response — is
    /// reported as `None` and the table is not affected at all.
    #[verifier::loop_isolation(false)]
    pub fn resolve(&mut self, id: u32) -> (r: Option<CallRecord>)
        requires
            old(self).wf(),
        ensures
            final(self).wf(),
            r == spec_find(old(self).pending@, id),
            final(self).pending@ == spec_remove(old(self).pending@, id),
            r is None ==> final(self).pending@ == old(self).pending@,
            final(self).next_id == old(self).next_id,
            final(self).phase == old(self).phase,
    {
        let ghost p = self.pending@;
        proof {
            assert(p.skip(0) =~= p);
            assert(p.take(0) + spec_remove(p.skip(0), id) =~= spec_remove(p, id));
        }
        let mut i: usize = 0;
        while i < self.pending.len()
            invariant
                i <= self.pending@.len(),
                self.pending@ == p,
                self.next_id == old(self).next_id,
                self.phase == old(self).phase,
                forall|j: int| 0 <= j < i ==> (#[trigger] p[j]).id != id,
                spec_find(p, id) == spec_find(p.skip(i as int), id),
                spec_remove(p, id) == p.take(i as int) + spec_remove(p.skip(i as int), id),
            decreases self.pending@.len() - i,
        {
            proof {
                lemma_find_skip(p, id, i as int);
                lemma_remove_skip(p, id, i as int);
            }
            if self.pending[i].id == id {
                let rec = self.pending.remove(i);
                proof {
                    assert(p.skip(i as int).drop_first() =~= p.skip(i as int + 1));
                    assert(self.pending@ =~= p.take(i as int) + p.skip(i as int + 1));
                    lemma_wf_remove(p, id, old(self).next_id);
                }
                return Some(rec);
            }
            proof {
                assert(p.take(i as int).push(p[i as int]) =~= p.take(i as int + 1));
                assert(p.take(i as int) + (seq![p[i as int]] + spec_remove(
                    p.skip(i as int + 1),
                    id,
                )) =~= p.take(i as int + 1) + spec_remove(p.skip(i as int + 1), id));
            }
            i = i + 1;
        }
        proof {
            assert(p.skip(i as int).len() == 0);
            assert(p.take(i as int) + spec_remove(p.skip(i as int), id) =~= p);
        }
        None
    }

    /// Cancels an outstanding call: its record leaves the table so that a
    /// late response for the same id is an orphan and will be dropped.
    /// Returns the record if one was outstanding — only then need a
    /// cancellation notification be sent — and `None`, changing nothing,
    /// for an id with no record.
    pub fn cancel(&mut self, id: u32) -> (r: Option<CallRecord>)
        requires
            old(self).wf(),
        ensures
            final(self).wf(),
            r == spec_find(old(self).pending@, id),
            final(self).pending@ == spec_remove(old(self).pending@, id),
            !final(self).has_pending(id),
            final(self).next_id == old(self).next_id,
            final(self).phase == old(self).phase,
    {
        let r = self.resolve(id);
        proof {
            lemma_remove_then_find(old(self).pending@, id);
        }
        r
    }

    /// Ends the session: every still-outstanding record is handed back so
    /// each waiter can be failed with a connection-closed error, and the
    /// table is left empty.
    pub fn close(&mut self) -> (failed: Vec<CallRecord>)
        ensures
            final(self).phase == SessionPhase::Closed,
            final(self).pending@.len() == 0,
            failed == old(self).pending,
            final(self).wf(),
    {
        self.phase = SessionPhase::Closed;
        let mut failed: Vec<CallRecord> = Vec::new();
        core::mem::swap(&mut failed, &mut self.pending);
        failed
    }
}

/// An id at or above the counter is in no well-formed table.
proof fn lemma_find_absent(p: Seq<CallRecord>, id: u32)
    requires
        forall|i: int| 0 <= i < p.len() ==> (#[trigger] p[i]).id < id,
    ensures
        spec_find(p, id) is None,
    decreases p.len(),
{
    if p.len() > 0 {
        lemma_find_absent(p.drop_first(), id);
    }
}

/// Unfolds `spec_find` at position `i`.
proof fn lemma_find_skip(p: Seq<CallRecord>, id: u32, i: int)
    requires
        0 <= i < p.len(),
    ensures
        spec_find(p.skip(i), id) == if p[i].id == id {
            Some(p[i])
        } else {
            spec_find(p.skip(i + 1), id)
        },
{
    let s = p.skip(i);
    assert(s.len() > 0);
    assert(s[0] == p[i]);
    assert(s.drop_first() =~= p.skip(i + 1));
}

/// Unfolds `spec_remove` at position `i`.
proof fn lemma_remove_skip(p: Seq<CallRecord>, id: u32, i: int)
    requires
        0 <= i < p.len(),
    ensures
        spec_remove(p.skip(i), id) == if p[i].id == id {
            p.skip(i + 1)
        } else {
            seq![p[i]] + spec_remove(p.skip(i + 1), id)
        },
{
    let s = p.skip(i);
    assert(s.len() > 0);
    assert(s[0] == p[i]);
    assert(s.drop_first() =~= p.skip(i + 1));
    if p[i].id == id {
        assert(s.drop_first() =~= p.skip(i + 1));
    }
}

/// Taking a record out keeps every other record and its order, and keeps
/// the table well formed.
pub proof fn lemma_wf_remove(p: Seq<CallRecord>, id: u32, next_id: u32)
    requires
        wf_records(p, next_id),
    ensures
        wf_records(spec_remove(p, id), next_id),
    decreases p.len(),
{
    if p.len() > 0 {
        assert(p.drop_first() =~= p.skip(1));
        assert forall|i: int| 0 <= i < p.drop_first().len() implies (#[trigger] p.drop_first()[i]).id
            < next_id by {
            assert(p.drop_first()[i] == p[i + 1]);
        }
        assert(distinct_ids(p.drop_first()));
        if p[0].id != id {
            lemma_wf_remove(p.drop_first(), id, next_id);
            let r = seq![p[0]] + spec_remove(p.drop_first(), id);
            lemma_remove_subset(p.drop_first(), id);
            assert forall|i: int, j: int| 0 <= i < j < r.len() implies (#[trigger] r[i]).id != (#[trigger] r[j]).id by {
                if i == 0 {
                    let rr = spec_remove(p.drop_first(), id);
                    let k = choose|k: int| 0 <= k < p.drop_first().len() && p.drop_first()[k] == rr[j - 1];
                    assert(p[k + 1] == rr[j - 1]);
                }
            }
        }
    }
}

/// Every record that survives a removal stood in the original table.
pub proof fn lemma_remove_subset(p: Seq<CallRecord>, id: u32)
    ensures
        forall|j: int| 0 <= j < spec_remove(p, id).len() ==> exists|k: int|
            0 <= k < p.len() && p[k] == #[trigger] spec_remove(p, id)[j],
    decreases p.len(),
{
    if p.len() > 0 {
        lemma_remove_subset(p.drop_first(), id);
        let r = spec_remove(p, id);
        if p[0].id == id {
            assert forall|j: int| 0 <= j < r.len() implies exists|k: int|
                0 <= k < p.len() && p[k] == #[trigger] r[j] by {
                assert(r[j] == p[j + 1]);
            }
        } else {
            let rr = spec_remove(p.drop_first(), id);
            assert forall|j: int| 0 <= j < r.len() implies exists|k: int|
                0 <= k < p.len() && p[k] == #[trigger] r[j] by {
                if j == 0 {
                    assert(r[0] == p[0]);
                } else {
                    assert(r[j] == rr[j - 1]);
                    let prev = rr[j - 1];
                    let k = choose|k: int| 0 <= k < p.drop_first().len() && p.drop_first()[k]
                        == prev;
                    assert(p[k + 1] == rr[j - 1]);
                }
            }
        }
    }
}

/// After the record bound to `id` is taken out, no record is bound to it:
/// a response arriving for a cancelled call finds nothing and is dropped.
pub proof fn lemma_remove_then_find(p: Seq<CallRecord>, id: u32)
    requires
        distinct_ids(p),
    ensures
        spec_find(spec_remove(p, id), id) is None,
    decreases p.len(),
{
    if p.len() > 0 {
        assert(p.drop_first() =~= p.skip(1));
        assert(distinct_ids(p.drop_first()));
        if p[0].id == id {
            assert forall|i: int| 0 <= i < p.drop_first().len() implies (#[trigger] p.drop_first()[i]).id
                != id by {
                assert(p.drop_first()[i] == p[i + 1]);
                assert(p[0].id != p[i + 1].id);
            }
            lemma_find_none_of_absent(p.drop_first(), id);
        } else {
            lemma_remove_then_find(p.drop_first(), id);
            let r = seq![p[0]] + spec_remove(p.drop_first(), id);
            assert(r[0] == p[0]);
            assert(r.drop_first() =~= spec_remove(p.drop_first(), id));
        }
    }
}

/// A table none of whose records hold `id` finds nothing for it.
pub proof fn lemma_find_none_of_absent(p: Seq<CallRecord>, id: u32)
    requires
        forall|i: int| 0 <= i < p.len() ==> (#[trigger] p[i]).id != id,
    ensures
        spec_find(p, id) is None,
    decreases p.len(),
{
    if p.len() > 0 {
        assert(p.drop_first() =~= p.skip(1));
        assert forall|i: int| 0 <= i < p.drop_first().len() implies (#[trigger] p.drop_first()[i]).id
            != id by {
            assert(p.drop_first()[i] == p[i + 1]);
        }
        lemma_find_none_of_absent(p.drop_first(), id);
    }
}

/// Correlation: in a well-formed table the record found for an id is the
/// one that was registered under it — two outstanding calls never share an
/// id, so resolving one can never complete the other, whatever order the
/// responses come back in.
pub proof fn lemma_correlation(p: Seq<CallRecord>, i: int)
    requires
        distinct_ids(p),
        0 <= i < p.len(),
    ensures
        spec_find(p, p[i].id) == Some(p[i]),
        spec_find(spec_remove(p, p[i].id), p[i].id) is None,
        forall|j: int| 0 <= j < p.len() && j != i ==> spec_find(p, (#[trigger] p[j]).id) == Some(
            p[j],
        ),
    decreases p.len(),
{
    assert forall|j: int| 0 <= j < p.len() implies spec_find(p, (#[trigger] p[j]).id) == Some(
        p[j],
    ) by {
        lemma_find_hits(p, j);
    }
    lemma_remove_then_find(p, p[i].id);
}

/// `spec_find` on the id of position `j` returns exactly that record.
proof fn lemma_find_hits(p: Seq<CallRecord>, j: int)
    requires
        distinct_ids(p),
        0 <= j < p.len(),
    ensures
        spec_find(p, p[j].id) == Some(p[j]),
    decreases p.len(),
{
    if j > 0 {
        assert(p[0].id != p[j].id);
        assert(p.drop_first() =~= p.skip(1));
        assert(distinct_ids(p.drop_first()));
        lemma_find_hits(p.drop_first(), j - 1);
        assert(p.drop_first()[j - 1] == p[j]);
    }
}

} // verus!

//! The append-only domain event log: append with a strictly increasing
//! sequence, the non-blocking claim protocol, and the query surface.

use vstd::prelude::*;

use crate::enums::DomainEventTypes;
use crate::enums::Tables;
use crate::errors::DatabaseError;
use crate::errors::ErrorCode;
use crate::lookup::contains_u64;
use crate::lookup::lemma_filter_take_prefix;
use crate::lookup::lemma_filter_take_step;
use crate::lookup::lemma_take_all;
use crate::store::Store;
use crate::strutil::clone_opt_string;

verus! {

/// A committed domain event row. Immutable once created: the store never
/// updates or deletes one.
pub struct DomainEvent {
    /// Unique row identifier. The store assigns it from the same counter
    /// as the sequence, so the two coincide.
    pub id: u64,
    pub event_type: DomainEventTypes,
    pub display_text: String,
    /// Raw context captured at creation time, not the dispatch payload.
    pub event_data: Option<String>,
    pub main_table: Tables,
    pub main_id: Option<u64>,
    pub user_id: Option<u64>,
    pub organization_id: Option<u64>,
    /// Position in the global total order; strictly increases with
    /// insertion order and is never reused.
    pub seq: u64,
    pub created_at: i64,
}

impl Clone for DomainEvent {
    fn clone(&self) -> (r: DomainEvent)
        ensures
            r == *self,
    {
        DomainEvent {
            id: self.id,
            event_type: self.event_type,
            display_text: self.display_text.clone(),
            event_data: clone_opt_string(&self.event_data),
            main_table: self.main_table,
            main_id: self.main_id,
            user_id: self.user_id,
            organization_id: self.organization_id,
            seq: self.seq,
            created_at: self.created_at,
        }
    }
}

/// An event prepared but not yet committed.
pub struct NewDomainEvent {
    pub event_type: DomainEventTypes,
    pub display_text: String,
    pub event_data: Option<String>,
    pub main_table: Tables,
    pub main_id: Option<u64>,
    pub user_id: Option<u64>,
    /// When absent, the commit time is used.
    pub created_at: Option<i64>,
}

/// The predicate a claim scan uses: past the cursor and not currently
/// locked by another claimant.
pub open spec fn claimable(after_seq: u64, locks: Seq<u64>) -> spec_fn(DomainEvent) -> bool {
    |e: DomainEvent| e.seq > after_seq && !locks.contains(e.seq)
}

/// The predicate of the entity query: same table, same entity id, and the
/// requested type if one was given.
pub open spec fn for_entity(
    table: Tables,
    id: Option<u64>,
    event_type: Option<DomainEventTypes>,
) -> spec_fn(DomainEvent) -> bool {
    |e: DomainEvent|
        e.main_table == table && e.main_id == id && match event_type {
            Some(t) => e.event_type == t,
            None => true,
        }
}

/// The commit time the store assigns: the requested instant, but never
/// earlier than the newest row already in the log, so that ordering by
/// sequence always equals ordering by commit time.
pub open spec fn commit_created_at(s: Store, requested: i64) -> i64 {
    if s.domain_events@.len() > 0 && s.domain_events@.last().created_at > requested {
        s.domain_events@.last().created_at
    } else {
        requested
    }
}

/// Membership predicate for the id-set query.
pub open spec fn with_id_in(ids: Seq<u64>) -> spec_fn(DomainEvent) -> bool {
    |e: DomainEvent| ids.contains(e.id)
}

impl DomainEvent {
    /// Prepares a new event; nothing is persisted until `commit`.
    pub fn create(
        event_type: DomainEventTypes,
        display_text: String,
        main_table: Tables,
        main_id: Option<u64>,
        user_id: Option<u64>,
        event_data: Option<String>,
    ) -> (r: NewDomainEvent)
        ensures
            r.event_type == event_type,
            r.display_text == display_text,
            r.main_table == main_table,
            r.main_id == main_id,
            r.user_id == user_id,
            r.event_data == event_data,
            r.created_at is None,
    {
        NewDomainEvent {
            event_type,
            display_text,
            event_data,
            main_table,
            main_id,
            user_id,
            created_at: None,
        }
    }

    /// Claims up to `limit` events past `after_seq`, ascending by
    /// sequence, skipping (not waiting on) rows already locked by another
    /// claimant, and locking the returned ones: two concurrent claimants
    /// can never receive the same row.
    pub fn find_after_seq(after_seq: u64, limit: u32, store: &mut Store) -> (r: Vec<DomainEvent>)
        requires
            old(store).wf(),
        ensures
            final(store).wf(),
            (*final(store) == Store { locks: final(store).locks, ..*old(store) }),
            r@ == old(store).domain_events@.filter(claimable(after_seq, old(store).locks@)).take(
                r@.len() as int,
            ),
            r@.len() == vstd::math::min(
                old(store).domain_events@.filter(claimable(after_seq, old(store).locks@)).len()
                    as int,
                limit as int,
            ),
            forall|i: int|
                0 <= i < r@.len() ==> (#[trigger] r@[i]).seq > after_seq && !old(
                    store,
                ).locks@.contains(r@[i].seq),
            forall|s: u64|
                final(store).locks@.contains(s) <==> (old(store).locks@.contains(s) || exists|
                    k: int,
                |
                    0 <= k < r@.len() && (#[trigger] r@[k]).seq == s),
    {
        let ghost all = old(store).domain_events@;
        let ghost locks0 = old(store).locks@;
        let ghost pred = claimable(after_seq, locks0);
        let mut r: Vec<DomainEvent> = Vec::new();
        let mut i: usize = 0;
        let n = store.domain_events.len();
        while i < n && r.len() < limit as usize
            invariant
                old(store).wf(),
                *store == *old(store),
                n == all.len(),
                all == old(store).domain_events@,
                locks0 == old(store).locks@,
                pred == claimable(after_seq, locks0),
                i <= n,
                r@.len() <= limit as int,
                r@.len() <= all.take(i as int).filter(pred).len(),
                r@ == all.take(i as int).filter(pred).take(r@.len() as int),
                r@.len() == limit as int || r@ == all.take(i as int).filter(pred),
            decreases n - i,
        {
            let e = &store.domain_events[i];
            let locked = contains_u64(&store.locks, e.seq);
            let keep = e.seq > after_seq && !locked;
            if keep {
                let copy = e.clone();
                r.push(copy);
            }
            i = i + 1;
            proof {
                lemma_filter_take_step(all, pred, i - 1);
                let cur = all.take(i as int).filter(pred);
                if keep {
                    assert(cur == all.take(i - 1).filter(pred).push(all[i - 1]));
                    assert(r@ == cur.take(r@.len() as int)) by {
                        assert(r@ =~= cur.take(r@.len() as int));
                    }
                    if r@.len() != limit as int {
                        assert(r@ =~= cur);
                    }
                } else {
                    assert(cur == all.take(i - 1).filter(pred));
                }
            }
        }
        proof {
            if i == n {
                lemma_take_all(all);
                assert(all.take(i as int) == all);
            } else {
                assert(r@.len() == limit as int);
                lemma_filter_take_prefix(all, pred, i as int, r@.len() as int);
            }
            assert(r@ == all.filter(pred).take(r@.len() as int));
            assert(r@.len() == vstd::math::min(all.filter(pred).len() as int, limit as int));
        }
        // lock what was handed out
        let mut k: usize = 0;
        let ghost handed = r@;
        while k < r.len()
            invariant
                old(store).wf(),
                r@ == handed,
                k <= handed.len(),
                store.locks@ == locks0 + Seq::new(k as nat, |t: int| handed[t].seq),
                (*store == Store { locks: store.locks, ..*old(store) }),
            decreases handed.len() - k,
        {
            store.locks.push(r[k].seq);
            k = k + 1;
            proof {
                assert(store.locks@ =~= locks0 + Seq::new(k as nat, |t: int| handed[t].seq));
            }
        }
        proof {
            assert(store.wf());
            let fin = store.locks@;
            assert forall|s: u64|
                fin.contains(s) implies (locks0.contains(s) || exists|t: int|
                0 <= t < handed.len() && (#[trigger] handed[t]).seq == s) by {
                let w = choose|w: int| 0 <= w < fin.len() && fin[w] == s;
                if w < locks0.len() {
                    assert(locks0[w] == s);
                } else {
                    assert(handed[w - locks0.len()].seq == s);
                }
            }
            assert forall|s: u64|
                (locks0.contains(s) || exists|t: int|
                    0 <= t < handed.len() && (#[trigger] handed[t]).seq == s) implies fin.contains(
                s,
            ) by {
                if locks0.contains(s) {
                    let w = choose|w: int| 0 <= w < locks0.len() && locks0[w] == s;
                    assert(fin[w] == s);
                } else {
                    let t = choose|t: int| 0 <= t < handed.len() && (#[trigger] handed[t]).seq == s;
                    assert(fin[locks0.len() + t] == s);
                }
            }
        }
        r
    }

    /// Releases claims taken by `find_after_seq`, making the rows
    /// claimable again (the end of a dispatcher's claim transaction).
    pub fn release_locks(seqs: &Vec<u64>, store: &mut Store)
        requires
            old(store).wf(),
        ensures
            final(store).wf(),
            (*final(store) == Store { locks: final(store).locks, ..*old(store) }),
            final(store).locks@ == old(store).locks@.filter(kept_lock(seqs@)),
    {
        let ghost locks0 = store.locks@;
        let ghost keep = kept_lock(seqs@);
        let mut kept: Vec<u64> = Vec::new();
        let mut i: usize = 0;
        while i < store.locks.len()
            invariant
                old(store).wf(),
                *store == *old(store),
                locks0 == store.locks@,
                keep == kept_lock(seqs@),
                i <= locks0.len(),
                kept@ == locks0.take(i as int).filter(keep),
            decreases locks0.len() - i,
        {
            let s = store.locks[i];
            let released = contains_u64(seqs, s);
            if !released {
                kept.push(s);
            }
            i = i + 1;
            proof {
                lemma_filter_take_step(locks0, keep, i - 1);
            }
        }
        proof {
            lemma_take_all(locks0);
        }
        store.locks = kept;
        proof {
            assert(store.wf());
        }
    }

    /// Events about one entity, optionally narrowed to one type, in log
    /// order; the store clamps commit times, so this is also ascending
    /// creation order.
    pub fn find(
        main_table: Tables,
        main_id: Option<u64>,
        event_type: Option<DomainEventTypes>,
        store: &Store,
    ) -> (r: Vec<DomainEvent>)
        ensures
            r@ == store.domain_events@.filter(for_entity(main_table, main_id, event_type)),
            store.wf() ==> forall|i: int, j: int|
                0 <= i < j < r@.len() ==> (#[trigger] r@[i]).created_at <= (
                #[trigger] r@[j]).created_at,
    {
        let ghost pred = for_entity(main_table, main_id, event_type);
        let mut r: Vec<DomainEvent> = Vec::new();
        let mut i: usize = 0;
        while i < store.domain_events.len()
            invariant
                pred == for_entity(main_table, main_id, event_type),
                i <= store.domain_events@.len(),
                r@ == store.domain_events@.take(i as int).filter(pred),
            decreases store.domain_events@.len() - i,
        {
            let e = &store.domain_events[i];
            let table_hit = e.main_table == main_table;
            let id_hit = match (e.main_id, main_id) {
                (Some(a), Some(b)) => a == b,
                (None, None) => true,
                _ => false,
            };
            let type_hit = match (e.event_type, event_type) {
                (t, Some(want)) => t == want,
                (_, None) => true,
            };
            if table_hit && id_hit && type_hit {
                let copy = e.clone();
                r.push(copy);
            }
            i = i + 1;
            proof {
                lemma_filter_take_step(store.domain_events@, pred, i - 1);
            }
        }
        proof {
            lemma_take_all(store.domain_events@);
            if store.wf() {
                lemma_filter_keeps_creation_order(store.domain_events@, pred);
            }
        }
        r
    }

    /// Events whose id is in the given set, in log order; the store
    /// clamps commit times, so this is also ascending creation order.
    pub fn find_by_ids(ids: &Vec<u64>, store: &Store) -> (r: Vec<DomainEvent>)
        ensures
            r@ == store.domain_events@.filter(with_id_in(ids@)),
            store.wf() ==> forall|i: int, j: int|
                0 <= i < j < r@.len() ==> (#[trigger] r@[i]).created_at <= (
                #[trigger] r@[j]).created_at,
    {
        let ghost pred = with_id_in(ids@);
        let mut r: Vec<DomainEvent> = Vec::new();
        let mut i: usize = 0;
        while i < store.domain_events.len()
            invariant
                pred == with_id_in(ids@),
                i <= store.domain_events@.len(),
                r@ == store.domain_events@.take(i as int).filter(pred),
            decreases store.domain_events@.len() - i,
        {
            let e = &store.domain_events[i];
            let hit = contains_u64(ids, e.id);
            if hit {
                let copy = e.clone();
                r.push(copy);
            }
            i = i + 1;
            proof {
                lemma_filter_take_step(store.domain_events@, pred, i - 1);
            }
        }
        proof {
            lemma_take_all(store.domain_events@);
            if store.wf() {
                lemma_filter_keeps_creation_order(store.domain_events@, pred);
            }
        }
        r
    }
}


/// Filtering keeps the log's creation order: in a log whose commit times
/// never decrease, any query result drawn from it in log order is also
/// ordered by creation time.
pub proof fn lemma_filter_keeps_creation_order(s: Seq<DomainEvent>, p: spec_fn(DomainEvent) -> bool)
    requires
        forall|i: int, j: int|
            0 <= i < j < s.len() ==> (#[trigger] s[i]).created_at <= (#[trigger] s[j]).created_at,
    ensures
        forall|i: int, j: int|
            0 <= i < j < s.filter(p).len() ==> (#[trigger] s.filter(p)[i]).created_at <= (
            #[trigger] s.filter(p)[j]).created_at,
    decreases s.len(),
{
    reveal(Seq::filter);
    if s.len() > 0 {
        let dl = s.drop_last();
        assert forall|i: int, j: int|
            0 <= i < j < dl.len() implies (#[trigger] dl[i]).created_at <= (
        #[trigger] dl[j]).created_at by {
            assert(dl[i] == s[i] && dl[j] == s[j]);
        }
        lemma_filter_keeps_creation_order(dl, p);
        crate::lookup::lemma_filter_contains(dl, p);
        let f = s.filter(p);
        let fd = dl.filter(p);
        assert forall|i: int, j: int|
            0 <= i < j < f.len() implies (#[trigger] f[i]).created_at <= (
        #[trigger] f[j]).created_at by {
            if p(s.last()) {
                assert(f == fd.push(s.last()));
                if j < fd.len() {
                    assert(f[i] == fd[i] && f[j] == fd[j]);
                } else {
                    assert(f[j] == s.last());
                    assert(f[i] == fd[i]);
                    assert(fd.contains(fd[i]));
                    assert(dl.contains(fd[i]));
                    let w = choose|w: int| 0 <= w < dl.len() && dl[w] == fd[i];
                    assert(s[w] == fd[i]);
                    if w < s.len() - 1 {
                        assert(s[w].created_at <= s[s.len() - 1].created_at);
                    }
                }
            } else {
                assert(f == fd);
            }
        }
    }
}

/// The predicate that keeps a lock: its sequence was not released.
pub open spec fn kept_lock(released: Seq<u64>) -> spec_fn(u64) -> bool {
    |s: u64| !released.contains(s)
}

impl NewDomainEvent {
    /// Commits the event: assigns the next sequence, appends the row,
    /// runs the interaction logger synchronously on it, and returns it.
    /// Runs inside the caller's mutation, so the event exists exactly
    /// when the business change it records does. The commit time is the
    /// requested instant, clamped so it never precedes the newest row.
    /// Fails only when the sequence space is exhausted.
    pub fn commit(self, now: i64, store: &mut Store) -> (r: Result<DomainEvent, DatabaseError>)
        requires
            old(store).wf(),
        ensures
            final(store).wf(),
            r is Ok <==> old(store).next_seq < u64::MAX,
            match r {
                Ok(ev) => {
                    &&& ev.seq == old(store).next_seq
                    &&& ev.id == ev.seq
                    &&& ev.event_type == self.event_type
                    &&& ev.display_text == self.display_text
                    &&& ev.event_data == self.event_data
                    &&& ev.main_table == self.main_table
                    &&& ev.main_id == self.main_id
                    &&& ev.user_id == self.user_id
                    &&& ev.organization_id is None
                    &&& ev.created_at == commit_created_at(
                        *old(store),
                        self.created_at.unwrap_or(now),
                    )
                    &&& final(store).domain_events@ == old(store).domain_events@.push(ev)
                    &&& final(store).next_seq == old(store).next_seq + 1
                    &&& (*final(store) == Store {
                        domain_events: final(store).domain_events,
                        next_seq: final(store).next_seq,
                        interactions: final(store).interactions,
                        ..*old(store)
                    })
                    &&& crate::interactions::interactions_logged(
                        ev,
                        old(store).interactions@,
                        final(store).interactions@,
                        *old(store),
                        now,
                    )
                    &&& forall|i: int|
                        0 <= i < old(store).domain_events@.len() ==> (#[trigger] old(
                            store,
                        ).domain_events@[i]).seq < ev.seq
                },
                Err(e) => e.code == ErrorCode::InsertError && *final(store) == *old(store),
            },
    {
        if store.next_seq == u64::MAX {
            return Err(
                DatabaseError::with_text(ErrorCode::InsertError, "Could not insert domain event"),
            );
        }
        let seq = store.next_seq;
        let requested = match self.created_at {
            Some(t) => t,
            None => now,
        };
        let created_at = if store.domain_events.len() > 0 {
            let newest = store.domain_events[store.domain_events.len() - 1].created_at;
            if newest > requested {
                newest
            } else {
                requested
            }
        } else {
            requested
        };
        let ev = DomainEvent {
            id: seq,
            event_type: self.event_type,
            display_text: self.display_text,
            event_data: self.event_data,
            main_table: self.main_table,
            main_id: self.main_id,
            user_id: self.user_id,
            organization_id: None,
            seq,
            created_at,
        };
        let result = ev.clone();
        store.domain_events.push(ev);
        store.next_seq = seq + 1;
        proof {
            assert(store.wf());
        }
        let ghost mid = *store;
        // the interaction logger runs synchronously at commit time
        result.post_processing(now, store);
        proof {
            crate::interactions::lemma_interactions_logged_same_tables(
                result,
                mid.interactions@,
                store.interactions@,
                mid,
                *old(store),
                now,
            );
        }
        Ok(result)
    }
}

/// The observed sequences strictly increase with position in the log: for
/// any two rows, the later one carries the larger sequence. Together with
/// `commit`'s contract — each new row's sequence exceeds every earlier
/// one — this is the append-order law for the event log.
pub proof fn lemma_sequences_strictly_increase(store: Store, i: int, j: int)
    requires
        store.wf(),
        0 <= i < j < store.domain_events@.len(),
    ensures
        store.domain_events@[i].seq < store.domain_events@[j].seq,
{
}

/// Claims are mutually exclusive: a batch handed to one claimant is
/// locked, and a later claimant's batch is drawn from unlocked rows, so
/// no event row ever appears in both results.
pub proof fn lemma_claims_disjoint(
    first: Seq<DomainEvent>,
    second: Seq<DomainEvent>,
    locks_between: Seq<u64>,
)
    requires
        forall|k: int|
            0 <= k < first.len() ==> locks_between.contains((#[trigger] first[k]).seq),
        forall|k: int|
            0 <= k < second.len() ==> !locks_between.contains((#[trigger] second[k]).seq),
    ensures
        forall|a: int, b: int|
            0 <= a < first.len() && 0 <= b < second.len() ==> (#[trigger] first[a]).seq != (
            #[trigger] second[b]).seq,
{
}

} // verus!

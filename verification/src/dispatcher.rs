//! The dispatcher: polls the event log for unclaimed rows past its own
//! cursor, materializes their payloads, and hands them back for
//! delivery. The cursor belongs to the dispatcher, not the event row; a
//! failed batch leaves it unmoved so the rows are retried on the next
//! poll, and the claim locks are always released when the poll ends.

use vstd::prelude::*;

use crate::domain_events::claimable;
use crate::domain_events::kept_lock;
use crate::domain_events::DomainEvent;
use crate::errors::DatabaseError;
use crate::errors::ErrorCode;
use crate::lookup::lemma_filter_contains;
use crate::payloads::lemma_webhook_ready_same_tables;
use crate::payloads::payloads_ok;
use crate::payloads::webhook_ready;
use crate::store::Store;
use crate::value::Payload;

verus! {

/// One dispatcher instance: its consumed-sequence cursor.
pub struct Dispatcher {
    /// The highest sequence this dispatcher has fully processed.
    pub last_processed_seq: u64,
}

impl Dispatcher {
    /// A dispatcher starting after the given sequence.
    pub fn new(after_seq: u64) -> (r: Dispatcher)
        ensures
            r.last_processed_seq == after_seq,
    {
        Dispatcher { last_processed_seq: after_seq }
    }

    /// Claims the next batch past the cursor, materializes each claimed
    /// event's payloads, and returns the events paired with their
    /// payloads, in sequence order. On success the cursor moves past the
    /// batch; on a payload failure the cursor stays and the claims are
    /// released, so the same rows are retried on the next poll. Either
    /// way the claim locks taken here are gone when the call returns.
    pub fn poll(&mut self, limit: u32, front_end_url: &str, store: &mut Store) -> (r: Result<
        Vec<(DomainEvent, Vec<Payload>)>,
        DatabaseError,
    >)
        requires
            old(store).wf(),
        ensures
            final(store).wf(),
            (*final(store) == Store { locks: final(store).locks, ..*old(store) }),
            forall|s: u64|
                final(store).locks@.contains(s) == old(store).locks@.contains(s),
            match r {
                Ok(out) => {
                    &&& out@.len() == vstd::math::min(
                        old(store).domain_events@.filter(
                            claimable(old(self).last_processed_seq, old(store).locks@),
                        ).len() as int,
                        limit as int,
                    )
                    &&& forall|i: int|
                        0 <= i < out@.len() ==> (#[trigger] out@[i]).0 == old(
                            store,
                        ).domain_events@.filter(
                            claimable(old(self).last_processed_seq, old(store).locks@),
                        )[i]
                    &&& forall|i: int|
                        0 <= i < out@.len() ==> payloads_ok(
                            (#[trigger] out@[i]).0,
                            front_end_url@,
                            *old(store),
                            out@[i].1@,
                        )
                    &&& final(self).last_processed_seq == (if out@.len() > 0 {
                        out@.last().0.seq
                    } else {
                        old(self).last_processed_seq
                    })
                },
                Err(e) => {
                    &&& *final(self) == *old(self)
                    &&& (e.code == ErrorCode::BusinessProcessError || e.code
                        == ErrorCode::QueryError || e.code == ErrorCode::NoResults || e.code
                        == ErrorCode::MultipleResultsWhenOneExpected)
                },
            },
            r is Ok <==> (forall|i: int|
                0 <= i < vstd::math::min(
                    old(store).domain_events@.filter(
                        claimable(old(self).last_processed_seq, old(store).locks@),
                    ).len() as int,
                    limit as int,
                ) ==> webhook_ready(
                    #[trigger] old(store).domain_events@.filter(
                        claimable(old(self).last_processed_seq, old(store).locks@),
                    )[i],
                    *old(store),
                )),
    {
        let claimed = DomainEvent::find_after_seq(self.last_processed_seq, limit, store);
        let ghost mid_locks = store.locks@;
        let ghost mid_locks_vec = store.locks;
        let mut seqs: Vec<u64> = Vec::new();
        let mut k: usize = 0;
        while k < claimed.len()
            invariant
                k <= claimed@.len(),
                seqs@.len() == k,
                forall|i: int| 0 <= i < k ==> seqs@[i] == (#[trigger] claimed@[i]).seq,
            decreases claimed@.len() - k,
        {
            seqs.push(claimed[k].seq);
            k = k + 1;
        }
        proof {
            assert forall|s: u64| seqs@.contains(s) implies exists|i: int|
                0 <= i < claimed@.len() && (#[trigger] claimed@[i]).seq == s by {
                let w = choose|w: int| 0 <= w < seqs@.len() && seqs@[w] == s;
                assert(claimed@[w].seq == s);
            }
            assert forall|s: u64|
                (exists|i: int| 0 <= i < claimed@.len() && (#[trigger] claimed@[i]).seq == s)
                implies seqs@.contains(s) by {
                let w = choose|w: int|
                    0 <= w < claimed@.len() && (#[trigger] claimed@[w]).seq == s;
                assert(seqs@[w] == s);
            }
        }
        let ghost fl = old(store).domain_events@.filter(
            claimable(old(self).last_processed_seq, old(store).locks@),
        );
        let mut out: Vec<(DomainEvent, Vec<Payload>)> = Vec::new();
        let mut i: usize = 0;
        while i < claimed.len()
            invariant
                old(store).wf(),
                store.wf(),
                fl == old(store).domain_events@.filter(
                    claimable(old(self).last_processed_seq, old(store).locks@),
                ),
                claimed@.len() == vstd::math::min(fl.len() as int, limit as int),
                forall|j: int| 0 <= j < claimed@.len() ==> #[trigger] claimed@[j] == fl[j],
                (*store == Store { locks: mid_locks_vec, ..*old(store) }),
                store.locks@ == mid_locks,
                mid_locks_vec@ == mid_locks,
                i <= claimed@.len(),
                out@.len() == i,
                forall|j: int| 0 <= j < i ==> (#[trigger] out@[j]).0 == claimed@[j],
                forall|j: int|
                    0 <= j < i ==> payloads_ok(
                        (#[trigger] out@[j]).0,
                        front_end_url@,
                        *store,
                        out@[j].1@,
                    ),
                forall|j: int|
                    0 <= j < i ==> webhook_ready(#[trigger] claimed@[j], *old(store)),
                forall|s: u64|
                    seqs@.contains(s) <==> exists|t: int|
                        0 <= t < claimed@.len() && (#[trigger] claimed@[t]).seq == s,
                forall|s: u64|
                    mid_locks.contains(s) <==> (old(store).locks@.contains(s) || exists|t: int|
                        0 <= t < claimed@.len() && (#[trigger] claimed@[t]).seq == s),
                forall|t: int|
                    0 <= t < claimed@.len() ==> !old(store).locks@.contains(
                        (#[trigger] claimed@[t]).seq,
                    ),
            decreases claimed@.len() - i,
        {
            let ev = &claimed[i];
            match ev.webhook_payloads(front_end_url, store) {
                Ok(ps) => {
                    proof {
                        lemma_webhook_ready_same_tables(
                            claimed@[i as int],
                            (Store { locks: mid_locks_vec, ..*old(store) }),
                            *old(store),
                        );
                    }
                    let copy = ev.clone();
                    out.push((copy, ps));
                },
                Err(e) => {
                    proof {
                        // the failing event was not ready: readiness in the
                        // pre-claim store would have carried over
                        if webhook_ready(claimed@[i as int], *old(store)) {
                            lemma_webhook_ready_same_tables(
                                claimed@[i as int],
                                *old(store),
                                (Store { locks: mid_locks_vec, ..*old(store) }),
                            );
                            assert(false);
                        }
                        assert(!webhook_ready(fl[i as int], *old(store)));
                    }
                    DomainEvent::release_locks(&seqs, store);
                    proof {
                        lemma_filter_contains(mid_locks, kept_lock(seqs@));
                        assert forall|s: u64|
                            store.locks@.contains(s) == old(store).locks@.contains(s) by {
                            assert(store.locks@.contains(s) == (mid_locks.contains(s)
                                && kept_lock(seqs@)(s)));
                        }
                    }
                    return Err(e);
                },
            }
            i = i + 1;
        }
        DomainEvent::release_locks(&seqs, store);
        proof {
            lemma_filter_contains(mid_locks, kept_lock(seqs@));
            assert forall|s: u64| store.locks@.contains(s) == old(store).locks@.contains(s) by {
                assert(store.locks@.contains(s) == (mid_locks.contains(s) && kept_lock(seqs@)(
                    s,
                )));
            }
        }
        if out.len() > 0 {
            let last_seq = out[out.len() - 1].0.seq;
            self.last_processed_seq = last_seq;
        }
        proof {
            let ghost fl = old(store).domain_events@.filter(
                claimable(old(self).last_processed_seq, old(store).locks@),
            );
            assert(out@.len() == vstd::math::min(fl.len() as int, limit as int));
            assert(forall|i: int| 0 <= i < out@.len() ==> (#[trigger] out@[i]).0 == fl[i]);
            assert forall|i: int|
                0 <= i < vstd::math::min(fl.len() as int, limit as int) implies webhook_ready(
                #[trigger] fl[i],
                *old(store),
            ) by {
                assert(claimed@[i] == fl[i]);
            }
            assert forall|i: int|
                0 <= i < out@.len() implies payloads_ok(
                (#[trigger] out@[i]).0,
                front_end_url@,
                *old(store),
                out@[i].1@,
            ) by {
                crate::payloads::lemma_payloads_ok_same_tables(
                    out@[i].0,
                    front_end_url@,
                    (Store { locks: mid_locks_vec, ..*old(store) }),
                    *old(store),
                    out@[i].1@,
                );
            }
        }
        Ok(out)
    }
}


} // verus!

//! The interaction logger: certain event types record an
//! organization-level engagement timestamp when they are committed. The
//! logger is best-effort: a reference that no longer resolves (or a
//! transfer whose tickets disagree on a show) is skipped silently, never
//! an error.

use vstd::prelude::*;

use crate::domain_events::DomainEvent;
use crate::enums::DomainEventTypes;
use crate::store::has_show_event;
use crate::payloads::order_show_of;
use crate::payloads::order_show_unambiguous;
use crate::payloads::transfer_show_of;
use crate::payloads::transfer_show_unambiguous;
use crate::payloads::order_show_event;
use crate::payloads::same_tables;
use crate::payloads::transfer_show_event;
use crate::store::Interaction;
use crate::store::ShowEvent;
use crate::store::Store;

verus! {

/// Whether some show resolves for the order.
pub open spec fn order_has_show(store: Store, order_id: u64) -> bool {
    exists|e: ShowEvent| #[trigger] order_show_of(store, order_id, e)
}

/// Whether some show resolves for the transfer.
pub open spec fn transfer_has_show(store: Store, transfer_id: u64) -> bool {
    exists|e: ShowEvent| #[trigger] transfer_show_of(store, transfer_id, e)
}

/// What the interaction logger records for an event: the engagement
/// rows appended between `pre` and `post`, resolved against the entity
/// tables of `s` (the claim locks, event log and interactions of `s`
/// play no part).
pub open spec fn interactions_logged(
    ev: DomainEvent,
    pre: Seq<Interaction>,
    post: Seq<Interaction>,
    s: Store,
    now: i64,
) -> bool {
    match ev.event_type {
        DomainEventTypes::EventInterestCreated => match (ev.user_id, ev.main_id) {
            (Some(u), Some(eid)) => if has_show_event(s, eid) {
                forall|e: ShowEvent|
                    s.show_events@.contains(e) && e.id == eid ==> post == pre.push(
                        Interaction { organization_id: e.organization_id, user_id: u, at: now },
                    )
            } else {
                post == pre
            },
            _ => post == pre,
        },
        DomainEventTypes::OrderCompleted | DomainEventTypes::OrderRefund => match ev.main_id {
            Some(oid) => if order_show_unambiguous(s, oid) && order_has_show(
                s,
                oid,
            ) && crate::store::has_order(s, oid) {
                forall|e: ShowEvent, o: crate::orders::Order|
                    #[trigger] order_show_of(s, oid, e) && #[trigger] s.orders@.contains(o) && o.id == oid ==> post
                        == pre.push(
                        Interaction {
                            organization_id: e.organization_id,
                            user_id: o.on_behalf_of_user_id.unwrap_or(o.user_id),
                            at: now,
                        },
                    )
            } else {
                post == pre
            },
            None => post == pre,
        },
        DomainEventTypes::TicketInstanceRedeemed => match ev.main_id {
            Some(tid) => forall|ti: crate::store::TicketInstance, w: crate::store::Wallet, e: ShowEvent|
                s.ticket_instances@.contains(ti) && ti.id == tid && s.wallets@.contains(w) && w.id == ti.wallet_id && s.show_events@.contains(e) && e.id == ti.event_id ==> post == pre.push(
                    Interaction {
                        organization_id: e.organization_id,
                        user_id: w.user_id,
                        at: now,
                    },
                ),
            None => post == pre,
        },
        DomainEventTypes::TransferTicketStarted
        | DomainEventTypes::TransferTicketCancelled
        | DomainEventTypes::TransferTicketCompleted => match ev.main_id {
            Some(tid) => if transfer_show_unambiguous(s, tid)
                && transfer_has_show(s, tid) && crate::store::has_transfer(
                s,
                tid,
            ) {
                forall|e: ShowEvent, t: crate::transfers::Transfer|
                    #[trigger] transfer_show_of(s, tid, e) && #[trigger] s.transfers@.contains(t) && t.id == tid ==> post
                        == (match t.destination_user_id {
                        Some(du) => pre.push(
                            Interaction {
                                organization_id: e.organization_id,
                                user_id: t.source_user_id,
                                at: now,
                            },
                        ).push(
                            Interaction {
                                organization_id: e.organization_id,
                                user_id: du,
                                at: now,
                            },
                        ),
                        None => pre.push(
                            Interaction {
                                organization_id: e.organization_id,
                                user_id: t.source_user_id,
                                at: now,
                            },
                        ),
                    })
            } else {
                post == pre
            },
            None => post == pre,
        },
        _ => post == pre,
    }
}


/// The logger's record reads only the entity tables: two stores with the
/// same tables agree on it. The event log committer uses this to state
/// the logged interactions against the pre-commit store.
pub proof fn lemma_interactions_logged_same_tables(
    ev: DomainEvent,
    pre: Seq<Interaction>,
    post: Seq<Interaction>,
    s1: Store,
    s2: Store,
    now: i64,
)
    requires
        same_tables(s1, s2),
        interactions_logged(ev, pre, post, s1, now),
    ensures
        interactions_logged(ev, pre, post, s2, now),
{
    match ev.event_type {
        DomainEventTypes::EventInterestCreated => {
            match (ev.user_id, ev.main_id) {
                (Some(u), Some(eid)) => {
                    assert(has_show_event(s1, eid) == has_show_event(s2, eid)) by {
                        if has_show_event(s1, eid) {
                            let w = choose|w: int|
                                0 <= w < s1.show_events@.len() && (
                                #[trigger] s1.show_events@[w]).id == eid;
                            assert(s2.show_events@[w].id == eid);
                        }
                        if has_show_event(s2, eid) {
                            let w = choose|w: int|
                                0 <= w < s2.show_events@.len() && (
                                #[trigger] s2.show_events@[w]).id == eid;
                            assert(s1.show_events@[w].id == eid);
                        }
                    }
                    if has_show_event(s1, eid) {
                        assert forall|e: ShowEvent|
                            s2.show_events@.contains(e) && e.id == eid implies post == pre.push(
                            Interaction { organization_id: e.organization_id, user_id: u, at: now },
                        ) by {
                            assert(s1.show_events@.contains(e));
                        }
                    }
                },
                _ => {},
            }
        },
        DomainEventTypes::OrderCompleted | DomainEventTypes::OrderRefund => {
            match ev.main_id {
                Some(oid) => {
                    assert(crate::store::has_order(s1, oid) == crate::store::has_order(
                        s2,
                        oid,
                    )) by {
                        if crate::store::has_order(s1, oid) {
                            let w = choose|w: int|
                                0 <= w < s1.orders@.len() && (#[trigger] s1.orders@[w]).id == oid;
                            assert(s2.orders@[w].id == oid);
                        }
                        if crate::store::has_order(s2, oid) {
                            let w = choose|w: int|
                                0 <= w < s2.orders@.len() && (#[trigger] s2.orders@[w]).id == oid;
                            assert(s1.orders@[w].id == oid);
                        }
                    }
                    assert(order_has_show(s1, oid) == order_has_show(s2, oid)) by {
                        if order_has_show(s1, oid) {
                            let e = choose|e: ShowEvent| #[trigger] order_show_of(s1, oid, e);
                            crate::payloads::congr_order_show_of(s2, s1, oid, e);
                        }
                        if order_has_show(s2, oid) {
                            let e = choose|e: ShowEvent| #[trigger] order_show_of(s2, oid, e);
                            crate::payloads::congr_order_show_of(s1, s2, oid, e);
                        }
                    }
                    assert(order_show_unambiguous(s1, oid) == order_show_unambiguous(
                        s2,
                        oid,
                    )) by {
                        if order_show_unambiguous(s1, oid) {
                            assert forall|e1: ShowEvent, e2: ShowEvent|
                                #[trigger] order_show_of(s2, oid, e1) && #[trigger] order_show_of(
                                    s2,
                                    oid,
                                    e2,
                                ) implies e1 == e2 by {
                                crate::payloads::congr_order_show_of(s1, s2, oid, e1);
                                crate::payloads::congr_order_show_of(s1, s2, oid, e2);
                            }
                        }
                        if order_show_unambiguous(s2, oid) {
                            assert forall|e1: ShowEvent, e2: ShowEvent|
                                #[trigger] order_show_of(s1, oid, e1) && #[trigger] order_show_of(
                                    s1,
                                    oid,
                                    e2,
                                ) implies e1 == e2 by {
                                crate::payloads::congr_order_show_of(s2, s1, oid, e1);
                                crate::payloads::congr_order_show_of(s2, s1, oid, e2);
                            }
                        }
                    }
                    if order_show_unambiguous(s1, oid) && order_has_show(s1, oid)
                        && crate::store::has_order(s1, oid) {
                        assert forall|e: ShowEvent, o: crate::orders::Order|
                            #[trigger] order_show_of(s2, oid, e) && #[trigger] s2.orders@.contains(
                                o,
                            ) && o.id == oid implies post == pre.push(
                            Interaction {
                                organization_id: e.organization_id,
                                user_id: o.on_behalf_of_user_id.unwrap_or(o.user_id),
                                at: now,
                            },
                        ) by {
                            crate::payloads::congr_order_show_of(s1, s2, oid, e);
                            assert(s1.orders@.contains(o));
                        }
                    }
                },
                None => {},
            }
        },
        DomainEventTypes::TicketInstanceRedeemed => {
            match ev.main_id {
                Some(tid) => {
                    assert forall|ti: crate::store::TicketInstance, w: crate::store::Wallet, e: ShowEvent|
                        s2.ticket_instances@.contains(ti) && ti.id == tid && s2.wallets@.contains(
                            w,
                        ) && w.id == ti.wallet_id && s2.show_events@.contains(e) && e.id
                        == ti.event_id implies post == pre.push(
                        Interaction {
                            organization_id: e.organization_id,
                            user_id: w.user_id,
                            at: now,
                        },
                    ) by {
                        assert(s1.ticket_instances@.contains(ti));
                        assert(s1.wallets@.contains(w));
                        assert(s1.show_events@.contains(e));
                    }
                },
                None => {},
            }
        },
        DomainEventTypes::TransferTicketStarted
        | DomainEventTypes::TransferTicketCancelled
        | DomainEventTypes::TransferTicketCompleted => {
            match ev.main_id {
                Some(tid) => {
                    assert(crate::store::has_transfer(s1, tid) == crate::store::has_transfer(
                        s2,
                        tid,
                    )) by {
                        if crate::store::has_transfer(s1, tid) {
                            let w = choose|w: int|
                                0 <= w < s1.transfers@.len() && (#[trigger] s1.transfers@[w]).id
                                    == tid;
                            assert(s2.transfers@[w].id == tid);
                        }
                        if crate::store::has_transfer(s2, tid) {
                            let w = choose|w: int|
                                0 <= w < s2.transfers@.len() && (#[trigger] s2.transfers@[w]).id
                                    == tid;
                            assert(s1.transfers@[w].id == tid);
                        }
                    }
                    assert(transfer_has_show(s1, tid) == transfer_has_show(s2, tid)) by {
                        if transfer_has_show(s1, tid) {
                            let e = choose|e: ShowEvent| #[trigger] transfer_show_of(s1, tid, e);
                            crate::payloads::congr_transfer_show_of(s2, s1, tid, e);
                        }
                        if transfer_has_show(s2, tid) {
                            let e = choose|e: ShowEvent| #[trigger] transfer_show_of(s2, tid, e);
                            crate::payloads::congr_transfer_show_of(s1, s2, tid, e);
                        }
                    }
                    assert(transfer_show_unambiguous(s1, tid) == transfer_show_unambiguous(
                        s2,
                        tid,
                    )) by {
                        if transfer_show_unambiguous(s1, tid) {
                            assert forall|e1: ShowEvent, e2: ShowEvent|
                                #[trigger] transfer_show_of(s2, tid, e1)
                                    && #[trigger] transfer_show_of(s2, tid, e2) implies e1
                                == e2 by {
                                crate::payloads::congr_transfer_show_of(s1, s2, tid, e1);
                                crate::payloads::congr_transfer_show_of(s1, s2, tid, e2);
                            }
                        }
                        if transfer_show_unambiguous(s2, tid) {
                            assert forall|e1: ShowEvent, e2: ShowEvent|
                                #[trigger] transfer_show_of(s1, tid, e1)
                                    && #[trigger] transfer_show_of(s1, tid, e2) implies e1
                                == e2 by {
                                crate::payloads::congr_transfer_show_of(s2, s1, tid, e1);
                                crate::payloads::congr_transfer_show_of(s2, s1, tid, e2);
                            }
                        }
                    }
                    if transfer_show_unambiguous(s1, tid) && transfer_has_show(s1, tid)
                        && crate::store::has_transfer(s1, tid) {
                        assert forall|e: ShowEvent, t: crate::transfers::Transfer|
                            #[trigger] transfer_show_of(s2, tid, e)
                                && #[trigger] s2.transfers@.contains(t) && t.id == tid implies post
                            == (match t.destination_user_id {
                            Some(du) => pre.push(
                                Interaction {
                                    organization_id: e.organization_id,
                                    user_id: t.source_user_id,
                                    at: now,
                                },
                            ).push(
                                Interaction {
                                    organization_id: e.organization_id,
                                    user_id: du,
                                    at: now,
                                },
                            ),
                            None => pre.push(
                                Interaction {
                                    organization_id: e.organization_id,
                                    user_id: t.source_user_id,
                                    at: now,
                                },
                            ),
                        }) by {
                            crate::payloads::congr_transfer_show_of(s1, s2, tid, e);
                            assert(s1.transfers@.contains(t));
                        }
                    }
                },
                None => {},
            }
        },
        _ => {},
    }
}

impl DomainEvent {
    /// Logs the engagements this event stands for: who interacted with
    /// which organization, at `now`. Orders and transfers engage the
    /// organization of their resolved show; an interest event engages
    /// the show's organization directly; a redemption engages the
    /// ticket's organization on behalf of the wallet's owner. Event
    /// types outside these log nothing.
    pub fn post_processing(&self, now: i64, store: &mut Store)
        requires
            old(store).wf(),
        ensures
            final(store).wf(),
            (*final(store) == Store { interactions: final(store).interactions, ..*old(store) }),
            interactions_logged(
                *self,
                old(store).interactions@,
                final(store).interactions@,
                *old(store),
                now,
            ),
    {
        let main_id = match self.main_id {
            Some(v) => v,
            None => {
                return ;
            },
        };
        match self.event_type {
            DomainEventTypes::EventInterestCreated => {
                let user_id = match self.user_id {
                    Some(v) => v,
                    None => {
                        return ;
                    },
                };
                let org = match store.find_show_event(main_id) {
                    Some(e) => {
                        proof {
                            crate::store::lemma_show_event_unique(*store, *e);
                        }
                        e.organization_id
                    },
                    None => {
                        return ;
                    },
                };
                store.log_interaction(org, user_id, now);
            },
            DomainEventTypes::OrderCompleted | DomainEventTypes::OrderRefund => {
                let order = match store.find_order(main_id) {
                    Some(o) => *o,
                    None => {
                        return ;
                    },
                };
                let show = match order_show_event(main_id, store) {
                    Ok(Some(e)) => e,
                    Ok(None) => {
                        proof {
                            lemma_no_order_show(*store, main_id);
                        }
                        return ;
                    },
                    Err(_) => {
                        return ;
                    },
                };
                let attributed = match order.on_behalf_of_user_id {
                    Some(b) => b,
                    None => order.user_id,
                };
                proof {
                    crate::store::lemma_order_unique(*store, order);
                    assert(order_show_of(*store, main_id, show));
                    assert forall|e1: ShowEvent, e2: ShowEvent|
                        #[trigger] order_show_of(*store, main_id, e1) && #[trigger] order_show_of(
                            *store,
                            main_id,
                            e2,
                        ) implies e1 == e2 by {
                        let i1 = choose|i: int|
                            0 <= i < store.order_items@.len() && (
                            #[trigger] store.order_items@[i]).order_id == main_id
                                && crate::payloads::item_resolves_to(
                                *store,
                                store.order_items@[i],
                                e1,
                            );
                        let i2 = choose|i: int|
                            0 <= i < store.order_items@.len() && (
                            #[trigger] store.order_items@[i]).order_id == main_id
                                && crate::payloads::item_resolves_to(
                                *store,
                                store.order_items@[i],
                                e2,
                            );
                    }
                }
                store.log_interaction(show.organization_id, attributed, now);
            },
            DomainEventTypes::TicketInstanceRedeemed => {
                let ti = match store.find_ticket_instance(main_id) {
                    Some(t) => *t,
                    None => {
                        return ;
                    },
                };
                let wallet_user = match store.find_wallet(ti.wallet_id) {
                    Some(w) => {
                        proof {
                            lemma_wallet_unique_here(*store, ti.wallet_id);
                            assert(forall|w2: crate::store::Wallet|
                                store.wallets@.contains(w2) && w2.id == ti.wallet_id
                                    ==> w2.user_id == w.user_id);
                        }
                        w.user_id
                    },
                    None => {
                        proof {
                            crate::store::lemma_ticket_instance_unique(*store, ti);
                        }
                        return ;
                    },
                };
                let org = match store.find_show_event(ti.event_id) {
                    Some(e) => {
                        proof {
                            crate::store::lemma_show_event_unique(*store, *e);
                            assert(forall|e2: ShowEvent|
                                store.show_events@.contains(e2) && e2.id == ti.event_id
                                    ==> e2.organization_id == e.organization_id);
                        }
                        e.organization_id
                    },
                    None => {
                        proof {
                            crate::store::lemma_ticket_instance_unique(*store, ti);
                        }
                        return ;
                    },
                };
                proof {
                    crate::store::lemma_ticket_instance_unique(*store, ti);
                }
                store.log_interaction(org, wallet_user, now);
            },
            DomainEventTypes::TransferTicketStarted
            | DomainEventTypes::TransferTicketCancelled
            | DomainEventTypes::TransferTicketCompleted => {
                let transfer = match crate::transfers::Transfer::find(main_id, store) {
                    Ok(t) => t,
                    Err(_) => {
                        return ;
                    },
                };
                let show = match transfer_show_event(main_id, store) {
                    Ok(Some(e)) => e,
                    Ok(None) => {
                        proof {
                            lemma_no_transfer_show(*store, main_id);
                        }
                        return ;
                    },
                    Err(_) => {
                        return ;
                    },
                };
                proof {
                    crate::store::lemma_transfer_unique(*store, transfer);
                }
                store.log_interaction(show.organization_id, transfer.source_user_id, now);
                match transfer.destination_user_id {
                    Some(du) => {
                        store.log_interaction(show.organization_id, du, now);
                    },
                    None => {},
                }
            },
            _ => {},
        }
    }
}

proof fn lemma_wallet_unique_here(store: Store, id: u64)
    requires
        store.wf(),
    ensures
        forall|w1: crate::store::Wallet, w2: crate::store::Wallet|
            store.wallets@.contains(w1) && w1.id == id && store.wallets@.contains(w2) && w2.id
                == id ==> w1 == w2,
{
    assert forall|w1: crate::store::Wallet, w2: crate::store::Wallet|
        store.wallets@.contains(w1) && w1.id == id && store.wallets@.contains(w2) && w2.id
            == id implies w1 == w2 by {
        let a = choose|a: int| 0 <= a < store.wallets@.len() && store.wallets@[a] == w1;
        let b = choose|b: int| 0 <= b < store.wallets@.len() && store.wallets@[b] == w2;
        if a != b {
            assert(false);
        }
    }
}

proof fn lemma_no_order_show(store: Store, order_id: u64)
    requires
        forall|i: int, e2: ShowEvent|
            0 <= i < store.order_items@.len() ==> !(store.order_items@[i].order_id == order_id
                && #[trigger] crate::payloads::item_resolves_to(store, store.order_items@[i], e2)),
    ensures
        !order_has_show(store, order_id),
{
    if order_has_show(store, order_id) {
        let e = choose|e: ShowEvent| #[trigger] order_show_of(store, order_id, e);
        let i = choose|i: int|
            0 <= i < store.order_items@.len() && (#[trigger] store.order_items@[i]).order_id
                == order_id && crate::payloads::item_resolves_to(store, store.order_items@[i], e);
    }
}

proof fn lemma_no_transfer_show(store: Store, transfer_id: u64)
    requires
        forall|e: ShowEvent| !transfer_show_of(store, transfer_id, e),
    ensures
        !transfer_has_show(store, transfer_id),
{
}

} // verus!

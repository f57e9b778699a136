//! Per-event-type payload materialization: the pure transformation from
//! a committed domain event plus current store state into the payloads
//! handed to external channel clients.

use vstd::prelude::*;

use crate::domain_events::DomainEvent;
use crate::errors::DatabaseError;
use crate::errors::ErrorCode;
use crate::store::has_ticket_type;
use crate::store::has_user;
use crate::store::lemma_show_event_unique;
use crate::store::lemma_ticket_instance_unique;
use crate::store::lemma_ticket_type_unique;
use crate::store::lemma_user_unique;
use crate::store::ShowEvent;
use crate::store::Store;
use crate::value::Payload;
use crate::value::Value;

verus! {

/// The payload holds `n` under `k`.
pub open spec fn has_int(p: Payload, k: Seq<char>, n: int) -> bool {
    match p.spec_get(k) {
        Some(Value::VInt(v)) => v as int == n,
        _ => false,
    }
}

/// The payload holds the text `t` under `k`.
pub open spec fn has_text(p: Payload, k: Seq<char>, t: Seq<char>) -> bool {
    match p.spec_get(k) {
        Some(Value::VText(s)) => s@ == t,
        _ => false,
    }
}

/// The payload holds the boolean `b` under `k`.
pub open spec fn has_bool(p: Payload, k: Seq<char>, b: bool) -> bool {
    p.spec_get(k) == Some(Value::VBool(b))
}

/// The payload holds null under `k`.
pub open spec fn has_null(p: Payload, k: Seq<char>) -> bool {
    p.spec_get(k) == Some(Value::VNull)
}

/// The payload holds the optional text under `k`: the text when present,
/// null when absent.
pub open spec fn has_opt_text(p: Payload, k: Seq<char>, o: Option<Seq<char>>) -> bool {
    match o {
        Some(t) => has_text(p, k, t),
        None => has_null(p, k),
    }
}

/// The payload holds the optional id under `k`: the number when present,
/// null when absent.
pub open spec fn has_opt_id(p: Payload, k: Seq<char>, o: Option<u64>) -> bool {
    match o {
        Some(v) => has_int(p, k, v as int),
        None => has_null(p, k),
    }
}

/// The view of an optional string.
pub open spec fn opt_view(o: Option<String>) -> Option<Seq<char>> {
    match o {
        Some(s) => Some(s@),
        None => None,
    }
}

/// The first of two optional texts that is present.
pub open spec fn or_opt(a: Option<Seq<char>>, b: Option<Seq<char>>) -> Option<Seq<char>> {
    if a is Some {
        a
    } else {
        b
    }
}

/// Inserts an optional text as text-or-null.
fn insert_opt_text(p: &mut Payload, key: &str, o: &Option<String>)
    requires
        old(p).wf(),
    ensures
        final(p).wf(),
        has_opt_text(*final(p), key@, opt_view(*o)),
        forall|k: Seq<char>|
            k != key@ ==> #[trigger] final(p).spec_get(k) == old(p).spec_get(k),
{
    match o {
        Some(s) => p.insert(key, Value::VText(s.clone())),
        None => p.insert(key, Value::VNull),
    }
}

/// Inserts an optional id as number-or-null.
fn insert_opt_id(p: &mut Payload, key: &str, o: Option<u64>)
    requires
        old(p).wf(),
    ensures
        final(p).wf(),
        has_opt_id(*final(p), key@, o),
        forall|k: Seq<char>|
            k != key@ ==> #[trigger] final(p).spec_get(k) == old(p).spec_get(k),
{
    match o {
        Some(v) => p.insert(key, Value::VInt(v as i128)),
        None => p.insert(key, Value::VNull),
    }
}

/// The show metadata keys: set exactly when the referenced show (and its
/// venue) resolves.
pub open spec fn event_metadata(p: Payload, e: ShowEvent, store: Store) -> bool {
    &&& has_int(p, "event_id"@, e.id as int)
    &&& has_text(p, "event_name"@, e.name@)
    &&& match e.venue_id {
        Some(vid) => has_int(p, "venue_id"@, vid as int) && (forall|v: crate::store::Venue|
            store.venues@.contains(v) && v.id == vid ==> has_text(p, "venue_name"@, v.name@)),
        None => true,
    }
    &&& match e.event_start {
        Some(t) => has_int(p, "event_start"@, t as int),
        None => true,
    }
}

/// Inserts the show metadata.
fn insert_event_metadata(p: &mut Payload, e: &ShowEvent, store: &Store)
    requires
        old(p).wf(),
        store.wf(),
    ensures
        final(p).wf(),
        event_metadata(*final(p), *e, *store),
        forall|k: Seq<char>|
            k != "event_id"@ && k != "event_name"@ && k != "venue_id"@ && k != "venue_name"@ && k
                != "event_start"@ ==> #[trigger] final(p).spec_get(k) == old(p).spec_get(k),
{
    proof {
        reveal_strlit("event_id");
        reveal_strlit("event_name");
        reveal_strlit("venue_id");
        reveal_strlit("venue_name");
        reveal_strlit("event_start");
        assert("event_id"@.len() == 8 && "event_name"@.len() == 10 && "venue_id"@.len() == 8
            && "venue_name"@.len() == 10 && "event_start"@.len() == 11);
        assert("event_id"@ != "venue_id"@) by {
            assert("event_id"@[0] == 'e' && "venue_id"@[0] == 'v');
        }
        assert("event_name"@ != "venue_name"@) by {
            assert("event_name"@[0] == 'e' && "venue_name"@[0] == 'v');
        }
    }
    p.insert("event_id", Value::VInt(e.id as i128));
    p.insert("event_name", Value::VText(e.name.clone()));
    match e.venue_id {
        Some(vid) => {
            p.insert("venue_id", Value::VInt(vid as i128));
            match store.find_venue(vid) {
                Some(v) => {
                    p.insert("venue_name", Value::VText(v.name.clone()));
                    proof {
                        crate::store::lemma_venue_unique(*store, *v);
                    }
                },
                None => {
                    proof {
                        assert forall|v: crate::store::Venue|
                            store.venues@.contains(v) && v.id == vid implies has_text(
                            *p,
                            "venue_name"@,
                            v.name@,
                        ) by {
                            let w = choose|w: int|
                                0 <= w < store.venues@.len() && store.venues@[w] == v;
                            assert(false);
                        }
                    }
                },
            }
        },
        None => {},
    }
    match e.event_start {
        Some(t) => {
            p.insert("event_start", Value::VInt(t as i128));
        },
        None => {},
    }
}

/// Whether the order item resolves to the given show: through its ticket
/// type to that type's show.
pub open spec fn item_resolves_to(store: Store, it: crate::orders::OrderItem, e: ShowEvent)
    -> bool {
    match it.ticket_type_id {
        Some(ttid) => exists|a: int, b: int|
            0 <= a < store.ticket_types@.len() && 0 <= b < store.show_events@.len() && (
            #[trigger] store.ticket_types@[a]).id == ttid && (#[trigger] store.show_events@[b]).id
                == store.ticket_types@[a].event_id && store.show_events@[b] == e,
        None => false,
    }
}

/// Whether some line item of the order resolves to the show `e`.
pub open spec fn order_show_of(store: Store, order_id: u64, e: ShowEvent) -> bool {
    exists|i: int|
        0 <= i < store.order_items@.len() && (#[trigger] store.order_items@[i]).order_id
            == order_id && item_resolves_to(store, store.order_items@[i], e)
}

/// Whether all line items of the order agree on one show.
pub open spec fn order_show_unambiguous(store: Store, order_id: u64) -> bool {
    forall|e1: ShowEvent, e2: ShowEvent|
        #[trigger] order_show_of(store, order_id, e1) && #[trigger] order_show_of(
            store,
            order_id,
            e2,
        ) ==> e1 == e2
}

/// Resolves the show an order is about. Every line item that resolves
/// must point at the same show; two different shows are flagged rather
/// than silently picking one.
pub fn order_show_event(order_id: u64, store: &Store) -> (r: Result<
    Option<ShowEvent>,
    DatabaseError,
>)
    requires
        store.wf(),
    ensures
        match r {
            Ok(Some(e)) => {
                &&& store.show_events@.contains(e)
                &&& exists|i: int|
                    0 <= i < store.order_items@.len() && (#[trigger] store.order_items@[i]).order_id
                        == order_id && item_resolves_to(*store, store.order_items@[i], e)
                &&& forall|i: int, e2: ShowEvent|
                    0 <= i < store.order_items@.len() && store.order_items@[i].order_id
                        == order_id && #[trigger] item_resolves_to(
                        *store,
                        store.order_items@[i],
                        e2,
                    ) ==> e2 == e
            },
            Ok(None) => forall|i: int, e2: ShowEvent|
                0 <= i < store.order_items@.len() ==> !(store.order_items@[i].order_id == order_id
                    && #[trigger] item_resolves_to(*store, store.order_items@[i], e2)),
            Err(e) => e.code == ErrorCode::MultipleResultsWhenOneExpected
                && !order_show_unambiguous(*store, order_id),
        },
{
    let mut found: Option<ShowEvent> = None;
    let mut i: usize = 0;
    while i < store.order_items.len()
        invariant
            store.wf(),
            i <= store.order_items@.len(),
            match found {
                Some(e) => {
                    &&& store.show_events@.contains(e)
                    &&& exists|j: int|
                        0 <= j < i && (#[trigger] store.order_items@[j]).order_id == order_id
                            && item_resolves_to(*store, store.order_items@[j], e)
                    &&& forall|j: int, e2: ShowEvent|
                        0 <= j < i && store.order_items@[j].order_id == order_id
                            && #[trigger] item_resolves_to(*store, store.order_items@[j], e2)
                            ==> e2 == e
                },
                None => forall|j: int, e2: ShowEvent|
                    0 <= j < i ==> !(store.order_items@[j].order_id == order_id
                        && #[trigger] item_resolves_to(*store, store.order_items@[j], e2)),
            },
        decreases store.order_items@.len() - i,
    {
        let it = &store.order_items[i];
        if it.order_id == order_id {
            let resolved = resolve_item_show(it, store);
            match resolved {
                Some(e) => {
                    match &found {
                        Some(prev) => {
                            if prev.id != e.id {
                                proof {
                                    assert(order_show_of(*store, order_id, *prev));
                                    assert(order_show_of(*store, order_id, e)) by {
                                        assert(store.order_items@[i as int].order_id == order_id
                                            && item_resolves_to(
                                            *store,
                                            store.order_items@[i as int],
                                            e,
                                        ));
                                    }
                                    assert(!order_show_unambiguous(*store, order_id));
                                }
                                return Err(
                                    DatabaseError::with_text(
                                        ErrorCode::MultipleResultsWhenOneExpected,
                                        "Order spans more than one event",
                                    ),
                                );
                            }
                            proof {
                                lemma_show_event_unique(*store, e);
                                assert forall|j: int, e2: ShowEvent|
                                    0 <= j < i + 1 && store.order_items@[j].order_id == order_id
                                        && #[trigger] item_resolves_to(
                                        *store,
                                        store.order_items@[j],
                                        e2,
                                    ) implies e2 == *prev by {
                                    if j == i {
                                        lemma_item_show_unique(
                                            *store,
                                            store.order_items@[j],
                                            e,
                                            e2,
                                        );
                                    }
                                }
                            }
                        },
                        None => {
                            let ghost ev = e;
                            found = Some(e);
                            proof {
                                assert forall|j: int, e2: ShowEvent|
                                    0 <= j < i + 1 && store.order_items@[j].order_id == order_id
                                        && #[trigger] item_resolves_to(
                                        *store,
                                        store.order_items@[j],
                                        e2,
                                    ) implies e2 == ev by {
                                    if j == i {
                                        lemma_item_show_unique(
                                            *store,
                                            store.order_items@[j],
                                            ev,
                                            e2,
                                        );
                                    }
                                }
                            }
                        },
                    }
                },
                None => {},
            }
        }
        i = i + 1;
    }
    Ok(found)
}

/// An item resolves to at most one show.
proof fn lemma_item_show_unique(
    store: Store,
    it: crate::orders::OrderItem,
    e1: ShowEvent,
    e2: ShowEvent,
)
    requires
        store.wf(),
        item_resolves_to(store, it, e1),
        item_resolves_to(store, it, e2),
    ensures
        e1 == e2,
{
    let (a1, b1) = choose|a: int, b: int|
        0 <= a < store.ticket_types@.len() && 0 <= b < store.show_events@.len() && (
        #[trigger] store.ticket_types@[a]).id == it.ticket_type_id->0 && (
        #[trigger] store.show_events@[b]).id == store.ticket_types@[a].event_id
            && store.show_events@[b] == e1;
    let (a2, b2) = choose|a: int, b: int|
        0 <= a < store.ticket_types@.len() && 0 <= b < store.show_events@.len() && (
        #[trigger] store.ticket_types@[a]).id == it.ticket_type_id->0 && (
        #[trigger] store.show_events@[b]).id == store.ticket_types@[a].event_id
            && store.show_events@[b] == e2;
    if a1 != a2 {
        assert(false);
    }
    if b1 != b2 {
        assert(false);
    }
}

/// Resolves one item's show, if its ticket type and that type's show
/// both exist.
fn resolve_item_show(it: &crate::orders::OrderItem, store: &Store) -> (r: Option<ShowEvent>)
    requires
        store.wf(),
    ensures
        match r {
            Some(e) => store.show_events@.contains(e) && item_resolves_to(*store, *it, e),
            None => forall|e: ShowEvent| !item_resolves_to(*store, *it, e),
        },
{
    let ttid = match it.ticket_type_id {
        Some(v) => v,
        None => {
            return None;
        },
    };
    let tt = match store.find_ticket_type(ttid) {
        Some(t) => t,
        None => {
            proof {
                assert forall|e: ShowEvent| !item_resolves_to(*store, *it, e) by {
                    if item_resolves_to(*store, *it, e) {
                        let (a, b) = choose|a: int, b: int|
                            0 <= a < store.ticket_types@.len() && 0 <= b
                                < store.show_events@.len() && (
                            #[trigger] store.ticket_types@[a]).id == ttid && (
                            #[trigger] store.show_events@[b]).id
                                == store.ticket_types@[a].event_id && store.show_events@[b] == e;
                    }
                }
            }
            return None;
        },
    };
    let show = match store.find_show_event(tt.event_id) {
        Some(e) => e,
        None => {
            proof {
                lemma_ticket_type_unique(*store, *tt);
                assert forall|e: ShowEvent| !item_resolves_to(*store, *it, e) by {
                    if item_resolves_to(*store, *it, e) {
                        let (a, b) = choose|a: int, b: int|
                            0 <= a < store.ticket_types@.len() && 0 <= b
                                < store.show_events@.len() && (
                            #[trigger] store.ticket_types@[a]).id == ttid && (
                            #[trigger] store.show_events@[b]).id
                                == store.ticket_types@[a].event_id && store.show_events@[b] == e;
                        assert(store.ticket_types@.contains(store.ticket_types@[a]));
                        assert(store.show_events@.contains(store.show_events@[b]));
                    }
                }
            }
            return None;
        },
    };
    let copy = clone_show_event(show);
    proof {
        let a = choose|a: int|
            0 <= a < store.ticket_types@.len() && store.ticket_types@[a] == *tt;
        let b = choose|b: int|
            0 <= b < store.show_events@.len() && store.show_events@[b] == *show;
    }
    Some(copy)
}

/// Clones a show row, keeping its value.
fn clone_show_event(e: &ShowEvent) -> (r: ShowEvent)
    ensures
        r == *e,
{
    ShowEvent {
        id: e.id,
        name: e.name.clone(),
        organization_id: e.organization_id,
        venue_id: e.venue_id,
        event_start: e.event_start,
        event_end: e.event_end,
    }
}


/// The first of two optional ids that is present.
pub open spec fn or_id(a: Option<u64>, b: Option<u64>) -> Option<u64> {
    if a is Some {
        a
    } else {
        b
    }
}

/// The account payload of a freshly created user.
pub open spec fn user_created_payload(p: Payload, ev: DomainEvent, store: Store) -> bool {
    &&& p.wf()
    &&& has_int(p, "timestamp"@, ev.created_at as int)
    &&& has_text(p, "webhook_event_type"@, "user_created"@)
    &&& forall|u: crate::store::User|
        store.users@.contains(u) && Some(u.id) == ev.main_id ==> has_int(p, "user_id"@, u.id as int)
            && has_opt_text(p, "email"@, opt_view(u.email)) && has_opt_text(
            p,
            "phone"@,
            opt_view(u.phone),
        )
    &&& forall|k: Seq<char>|
        #[trigger] p.spec_get(k) is Some ==> k == "timestamp"@ || k == "webhook_event_type"@ || k
            == "user_id"@ || k == "email"@ || k == "phone"@
}

/// The account payload of a temporary user made for a transfer
/// recipient.
pub open spec fn temporary_user_created_payload(p: Payload, ev: DomainEvent, store: Store) -> bool {
    &&& p.wf()
    &&& has_int(p, "timestamp"@, ev.created_at as int)
    &&& has_text(p, "webhook_event_type"@, "temporary_user_created"@)
    &&& forall|u: crate::store::TemporaryUser|
        store.temporary_users@.contains(u) && Some(u.id) == ev.main_id ==> has_int(
            p,
            "user_id"@,
            u.id as int,
        ) && has_opt_text(p, "email"@, opt_view(u.email)) && has_opt_text(
            p,
            "phone"@,
            opt_view(u.phone),
        )
    &&& forall|k: Seq<char>|
        #[trigger] p.spec_get(k) is Some ==> k == "timestamp"@ || k == "webhook_event_type"@ || k
            == "user_id"@ || k == "email"@ || k == "phone"@
}

/// The device payload of a registered push token.
pub open spec fn push_token_payload(p: Payload, ev: DomainEvent, store: Store) -> bool {
    &&& p.wf()
    &&& has_int(p, "timestamp"@, ev.created_at as int)
    &&& has_text(p, "webhook_event_type"@, "user_device_tokens_added"@)
    &&& forall|t: crate::store::PushNotificationToken|
        store.push_tokens@.contains(t) && Some(t.id) == ev.main_id ==> has_int(
            p,
            "user_id"@,
            t.user_id as int,
        ) && has_text(p, "token_source"@, t.token_source@) && has_text(p, "token"@, t.token@)
            && has_int(p, "last_used"@, t.last_notification_at.unwrap_or(t.created_at) as int)
    &&& forall|k: Seq<char>|
        #[trigger] p.spec_get(k) is Some ==> k == "timestamp"@ || k == "webhook_event_type"@ || k
            == "user_id"@ || k == "token_source"@ || k == "token"@ || k == "last_used"@
}

fn build_user_created(ev: &DomainEvent, store: &Store) -> (r: Result<Payload, DatabaseError>)
    requires
        store.wf(),
        ev.main_id is Some,
    ensures
        r is Ok <==> has_user(*store, ev.main_id->0),
        r matches Ok(p) ==> user_created_payload(p, *ev, *store),
        r matches Err(e) ==> e.code == ErrorCode::QueryError,
{
    let uid = match ev.main_id {
        Some(v) => v,
        None => {
            return Err(DatabaseError::with_text(ErrorCode::QueryError, "Error loading user"));
        },
    };
    let user = match store.find_user(uid) {
        Some(u) => u,
        None => {
            return Err(DatabaseError::with_text(ErrorCode::QueryError, "Error loading user"));
        },
    };
    proof {
        reveal_strlit("timestamp");
        reveal_strlit("webhook_event_type");
        reveal_strlit("user_id");
        reveal_strlit("email");
        reveal_strlit("phone");
        assert("timestamp"@.len() == 9 && "webhook_event_type"@.len() == 18 && "user_id"@.len()
            == 7 && "email"@.len() == 5 && "phone"@.len() == 5);
        assert("email"@ != "phone"@) by {
            assert("email"@[0] == 'e' && "phone"@[0] == 'p');
        }
    }
    let mut p = Payload::new();
    p.insert("timestamp", Value::VInt(ev.created_at as i128));
    p.insert("webhook_event_type", Value::VText(String::from_str("user_created")));
    p.insert("user_id", Value::VInt(user.id as i128));
    insert_opt_text(&mut p, "email", &user.email);
    insert_opt_text(&mut p, "phone", &user.phone);
    proof {
        lemma_user_unique(*store, *user);
    }
    Ok(p)
}

fn build_temporary_user_created(ev: &DomainEvent, store: &Store) -> (r: Result<
    Payload,
    DatabaseError,
>)
    requires
        store.wf(),
        ev.main_id is Some,
    ensures
        r is Ok <==> crate::store::has_temporary_user(*store, ev.main_id->0),
        r matches Ok(p) ==> temporary_user_created_payload(p, *ev, *store),
        r matches Err(e) ==> e.code == ErrorCode::QueryError,
{
    let uid = match ev.main_id {
        Some(v) => v,
        None => {
            return Err(
                DatabaseError::with_text(ErrorCode::QueryError, "Error loading temporary user"),
            );
        },
    };
    let user = match store.find_temporary_user(uid) {
        Some(u) => u,
        None => {
            return Err(
                DatabaseError::with_text(ErrorCode::QueryError, "Error loading temporary user"),
            );
        },
    };
    proof {
        reveal_strlit("timestamp");
        reveal_strlit("webhook_event_type");
        reveal_strlit("user_id");
        reveal_strlit("email");
        reveal_strlit("phone");
        assert("timestamp"@.len() == 9 && "webhook_event_type"@.len() == 18 && "user_id"@.len()
            == 7 && "email"@.len() == 5 && "phone"@.len() == 5);
        assert("email"@ != "phone"@) by {
            assert("email"@[0] == 'e' && "phone"@[0] == 'p');
        }
    }
    let mut p = Payload::new();
    p.insert("timestamp", Value::VInt(ev.created_at as i128));
    p.insert("webhook_event_type", Value::VText(String::from_str("temporary_user_created")));
    p.insert("user_id", Value::VInt(user.id as i128));
    insert_opt_text(&mut p, "email", &user.email);
    insert_opt_text(&mut p, "phone", &user.phone);
    proof {
        crate::store::lemma_temporary_user_unique(*store, *user);
    }
    Ok(p)
}

fn build_push_token(ev: &DomainEvent, store: &Store) -> (r: Option<Payload>)
    requires
        store.wf(),
        ev.main_id is Some,
    ensures
        match r {
            Some(p) => crate::store::has_push_token(*store, ev.main_id->0) && push_token_payload(
                p,
                *ev,
                *store,
            ),
            None => !crate::store::has_push_token(*store, ev.main_id->0),
        },
{
    let tid = match ev.main_id {
        Some(v) => v,
        None => {
            return None;
        },
    };
    // guard against dispatch racing a deletion: a missing token is
    // skipped, not an error
    let token = match store.find_push_token(tid) {
        Some(t) => t,
        None => {
            return None;
        },
    };
    proof {
        reveal_strlit("timestamp");
        reveal_strlit("webhook_event_type");
        reveal_strlit("user_id");
        reveal_strlit("token_source");
        reveal_strlit("token");
        reveal_strlit("last_used");
        assert("timestamp"@.len() == 9 && "webhook_event_type"@.len() == 18 && "user_id"@.len()
            == 7 && "token_source"@.len() == 12 && "token"@.len() == 5 && "last_used"@.len() == 9);
        assert("timestamp"@ != "last_used"@) by {
            assert("timestamp"@[0] == 't' && "last_used"@[0] == 'l');
        }
    }
    let mut p = Payload::new();
    p.insert("timestamp", Value::VInt(ev.created_at as i128));
    p.insert("webhook_event_type", Value::VText(String::from_str("user_device_tokens_added")));
    p.insert("user_id", Value::VInt(token.user_id as i128));
    p.insert("token_source", Value::VText(token.token_source.clone()));
    p.insert("token", Value::VText(token.token.clone()));
    let last_used = match token.last_notification_at {
        Some(t) => t,
        None => token.created_at,
    };
    p.insert("last_used", Value::VInt(last_used as i128));
    proof {
        crate::store::lemma_push_token_unique(*store, *token);
    }
    Some(p)
}


/// The aggregates of an order's line items. Ticket items feed the
/// subtotal and the ticket count, discount items the discount total, and
/// the fee-like kinds the fees total; refunded counterparts follow the
/// per-item refunded quantity.
pub struct OrderTotals {
    pub ticket_count: int,
    pub subtotal: int,
    pub refunded_subtotal: int,
    pub fees_total: int,
    pub refunded_fees_total: int,
    pub discount_total: int,
    pub refunded_discount_total: int,
}

/// One item's full price.
pub open spec fn item_total(it: crate::orders::OrderItem) -> int {
    it.unit_price_in_cents * it.quantity
}

/// One item's refunded portion.
pub open spec fn item_refunded_total(it: crate::orders::OrderItem) -> int {
    it.unit_price_in_cents * it.refunded_quantity
}

/// Adds one item into the running totals.
pub open spec fn totals_step(t: OrderTotals, it: crate::orders::OrderItem) -> OrderTotals {
    match it.item_type {
        crate::enums::OrderItemTypes::Tickets => OrderTotals {
            ticket_count: t.ticket_count + it.quantity - it.refunded_quantity,
            subtotal: t.subtotal + item_total(it),
            refunded_subtotal: t.refunded_subtotal + item_refunded_total(it),
            ..t
        },
        crate::enums::OrderItemTypes::Discount => OrderTotals {
            discount_total: t.discount_total + item_total(it),
            refunded_discount_total: t.refunded_discount_total + item_refunded_total(it),
            ..t
        },
        _ => OrderTotals {
            fees_total: t.fees_total + item_total(it),
            refunded_fees_total: t.refunded_fees_total + item_refunded_total(it),
            ..t
        },
    }
}

/// The empty totals.
pub open spec fn zero_totals() -> OrderTotals {
    OrderTotals {
        ticket_count: 0,
        subtotal: 0,
        refunded_subtotal: 0,
        fees_total: 0,
        refunded_fees_total: 0,
        discount_total: 0,
        refunded_discount_total: 0,
    }
}

/// The totals of a sequence of line items.
pub open spec fn order_totals(items: Seq<crate::orders::OrderItem>) -> OrderTotals
    decreases items.len(),
{
    if items.len() == 0 {
        zero_totals()
    } else {
        totals_step(order_totals(items.drop_last()), items.last())
    }
}

proof fn lemma_totals_push(items: Seq<crate::orders::OrderItem>, it: crate::orders::OrderItem)
    ensures
        order_totals(items.push(it)) == totals_step(order_totals(items), it),
{
    assert(items.push(it).drop_last() =~= items);
    assert(items.push(it).last() == it);
}

/// Whether the value stands for the item's ticket type name: the name
/// when the type resolves, null otherwise.
pub open spec fn ticket_type_value_ok(store: Store, it: crate::orders::OrderItem, v: Value) -> bool {
    match it.ticket_type_id {
        Some(ttid) => (forall|tt: crate::store::TicketType|
            store.ticket_types@.contains(tt) && tt.id == ttid ==> (match v {
                Value::VText(s) => s@ == tt.name@,
                _ => false,
            })) && (!has_ticket_type(store, ttid) ==> v == Value::VNull),
        None => v == Value::VNull,
    }
}

/// One entry of the items array: a record of the item's type name,
/// price, quantity, total and refunded counterparts, in that order.
pub open spec fn is_item_record(v: Value, it: crate::orders::OrderItem, store: Store) -> bool {
    match v {
        Value::VObj(es) => {
            &&& es@.len() == 6
            &&& es@[0].0@ == "ticket_type"@
            &&& ticket_type_value_ok(store, it, es@[0].1)
            &&& es@[1].0@ == "price"@
            &&& es@[1].1 == Value::VInt(it.unit_price_in_cents as i128)
            &&& es@[2].0@ == "quantity"@
            &&& es@[2].1 == Value::VInt(it.quantity as i128)
            &&& es@[3].0@ == "total"@
            &&& (match es@[3].1 {
                Value::VInt(n) => n as int == item_total(it),
                _ => false,
            })
            &&& es@[4].0@ == "refunded_quantity"@
            &&& es@[4].1 == Value::VInt(it.refunded_quantity as i128)
            &&& es@[5].0@ == "refunded_total"@
            &&& (match es@[5].1 {
                Value::VInt(n) => n as int == item_refunded_total(it),
                _ => false,
            })
        },
        _ => false,
    }
}

/// Exec-side accumulator of the aggregation pass.
struct OrderAggregation {
    ticket_count: i128,
    subtotal: i128,
    refunded_subtotal: i128,
    fees_total: i128,
    refunded_fees_total: i128,
    discount_total: i128,
    refunded_discount_total: i128,
    items: Vec<Value>,
}

/// One pass over the order's line items: the exact totals and the items
/// array, both pinned to the spec-level aggregation.
fn aggregate_order_items(order_id: u64, store: &Store) -> (r: OrderAggregation)
    requires
        store.wf(),
    ensures
        ({
            let items = store.order_items@.filter(crate::orders::item_of_order(order_id));
            let t = order_totals(items);
            &&& r.ticket_count as int == t.ticket_count
            &&& r.subtotal as int == t.subtotal
            &&& r.refunded_subtotal as int == t.refunded_subtotal
            &&& r.fees_total as int == t.fees_total
            &&& r.refunded_fees_total as int == t.refunded_fees_total
            &&& r.discount_total as int == t.discount_total
            &&& r.refunded_discount_total as int == t.refunded_discount_total
            &&& r.items@.len() == items.len()
            &&& forall|idx: int|
                0 <= idx < items.len() ==> is_item_record(#[trigger] r.items@[idx], items[idx], *store)
        }),
{
    let ghost pred = crate::orders::item_of_order(order_id);
    let mut ticket_count: i128 = 0;
    let mut subtotal: i128 = 0;
    let mut refunded_subtotal: i128 = 0;
    let mut fees_total: i128 = 0;
    let mut refunded_fees_total: i128 = 0;
    let mut discount_total: i128 = 0;
    let mut refunded_discount_total: i128 = 0;
    let mut items: Vec<Value> = Vec::new();
    let mut i: usize = 0;
    while i < store.order_items.len()
        invariant
            store.wf(),
            pred == crate::orders::item_of_order(order_id),
            i <= store.order_items@.len(),
            ({
                let fl = store.order_items@.take(i as int).filter(pred);
                let t = order_totals(fl);
                &&& ticket_count as int == t.ticket_count
                &&& subtotal as int == t.subtotal
                &&& refunded_subtotal as int == t.refunded_subtotal
                &&& fees_total as int == t.fees_total
                &&& refunded_fees_total as int == t.refunded_fees_total
                &&& discount_total as int == t.discount_total
                &&& refunded_discount_total as int == t.refunded_discount_total
                &&& items@.len() == fl.len()
                &&& fl.len() <= i
                &&& forall|idx: int|
                    0 <= idx < fl.len() ==> is_item_record(#[trigger] items@[idx], fl[idx], *store)
                &&& -(fl.len() * 1000000000000000) <= subtotal as int <= fl.len()
                    * 1000000000000000
                &&& -(fl.len() * 1000000000000000) <= refunded_subtotal as int <= fl.len()
                    * 1000000000000000
                &&& -(fl.len() * 1000000000000000) <= fees_total as int <= fl.len()
                    * 1000000000000000
                &&& -(fl.len() * 1000000000000000) <= refunded_fees_total as int <= fl.len()
                    * 1000000000000000
                &&& -(fl.len() * 1000000000000000) <= discount_total as int <= fl.len()
                    * 1000000000000000
                &&& -(fl.len() * 1000000000000000) <= refunded_discount_total as int <= fl.len()
                    * 1000000000000000
                &&& -(fl.len() * 1000000) <= ticket_count as int <= fl.len() * 1000000
            }),
        decreases store.order_items@.len() - i,
    {
        let it = &store.order_items[i];
        if it.order_id == order_id {
            let ghost fl0 = store.order_items@.take(i as int).filter(pred);
            proof {
                assert(item_bounded_here(*store, i as int));
                assert(fl0.len() + 1 <= i + 1);
                assert((fl0.len() + 1) * 1000000000000000 <= (i + 1) * 1000000000000000
                    && (i + 1) * 1000000000000000 < 0x1000000000000000000000000000000
                    && (fl0.len() + 1) * 1000000 < 0x1000000000000000000000000000000) by (nonlinear_arith)
                    requires
                        0 <= fl0.len() + 1 <= i + 1,
                        i + 1 <= 0x10000000000000000,
                ;
            }
            let price = it.unit_price_in_cents;
            let qty = it.quantity;
            let refunded = it.refunded_quantity;
            proof {
                assert(-1000000000000000 <= (price as int) * (qty as int) <= 1000000000000000
                    && -1000000000000000 <= (price as int) * (refunded as int)
                    <= 1000000000000000) by (nonlinear_arith)
                    requires
                        -1000000000 <= price <= 1000000000,
                        0 <= refunded <= qty <= 1000000,
                ;
            }
            let total: i128 = (price as i128) * (qty as i128);
            let refunded_total: i128 = (price as i128) * (refunded as i128);
            let mut record: Vec<(String, Value)> = Vec::new();
            let kind_label = match it.ticket_type_id {
                Some(ttid) => {
                    match store.find_ticket_type(ttid) {
                        Some(tt) => {
                            proof {
                                lemma_ticket_type_unique(*store, *tt);
                            }
                            Value::VText(tt.name.clone())
                        },
                        None => Value::VNull,
                    }
                },
                None => Value::VNull,
            };
            record.push((String::from_str("ticket_type"), kind_label));
            record.push((String::from_str("price"), Value::VInt(price as i128)));
            record.push((String::from_str("quantity"), Value::VInt(qty as i128)));
            record.push((String::from_str("total"), Value::VInt(total)));
            record.push((String::from_str("refunded_quantity"), Value::VInt(refunded as i128)));
            record.push((String::from_str("refunded_total"), Value::VInt(refunded_total)));
            let entry = Value::VObj(record);
            proof {
                assert(is_item_record(entry, store.order_items@[i as int], *store));
            }
            items.push(entry);
            match it.item_type {
                crate::enums::OrderItemTypes::Tickets => {
                    ticket_count = ticket_count + (qty as i128) - (refunded as i128);
                    subtotal = subtotal + total;
                    refunded_subtotal = refunded_subtotal + refunded_total;
                },
                crate::enums::OrderItemTypes::Discount => {
                    discount_total = discount_total + total;
                    refunded_discount_total = refunded_discount_total + refunded_total;
                },
                _ => {
                    fees_total = fees_total + total;
                    refunded_fees_total = refunded_fees_total + refunded_total;
                },
            }
            proof {
                lemma_totals_push(fl0, store.order_items@[i as int]);
            }
        }
        i = i + 1;
        proof {
            crate::lookup::lemma_filter_take_step(store.order_items@, pred, i - 1);
        }
    }
    proof {
        crate::lookup::lemma_take_all(store.order_items@);
    }
    OrderAggregation {
        ticket_count,
        subtotal,
        refunded_subtotal,
        fees_total,
        refunded_fees_total,
        discount_total,
        refunded_discount_total,
        items,
    }
}

/// The stored line item at `i` is inside the aggregation bounds; follows
/// from the store invariant.
pub open spec fn item_bounded_here(store: Store, i: int) -> bool {
    0 <= i < store.order_items@.len() && crate::orders::item_bounded(store.order_items@[i])
}


/// Whether any item of the order has a refunded portion; a resent order
/// confirmation then reports a refund instead of a purchase.
pub open spec fn order_has_refunds(store: Store, order_id: u64) -> bool {
    exists|i: int|
        0 <= i < store.order_items@.len() && (#[trigger] store.order_items@[i]).order_id
            == order_id && store.order_items@[i].refunded_quantity > 0
}

/// Everything an order payload needs to resolve: the order itself, its
/// customer account, and an unambiguous show.
pub open spec fn order_refs_ok(store: Store, order_id: u64) -> bool {
    &&& crate::store::has_order(store, order_id)
    &&& forall|o: crate::orders::Order|
        store.orders@.contains(o) && o.id == order_id ==> has_user(store, o.user_id)
    &&& order_show_unambiguous(store, order_id)
}

/// The order payload: show metadata, order number, customer identity,
/// the items array, the aggregates, attribution, and the timestamp.
pub open spec fn order_payload(p: Payload, ev: DomainEvent, store: Store, wtype: Seq<char>) -> bool {
    &&& p.wf()
    &&& has_int(p, "timestamp"@, ev.created_at as int)
    &&& has_text(p, "webhook_event_type"@, wtype)
    &&& forall|o: crate::orders::Order|
        store.orders@.contains(o) && Some(o.id) == ev.main_id ==> {
            let order_items_here = store.order_items@.filter(
                crate::orders::item_of_order(o.id),
            );
            let totals_here = order_totals(order_items_here);
            &&& (forall|e: ShowEvent|
                #[trigger] order_show_of(store, o.id, e) ==> event_metadata(p, e, store))
            &&& has_text(p, "order_number"@, crate::strutil::dec_digits(o.id as nat))
            &&& (forall|u: crate::store::User|
                store.users@.contains(u) && u.id == o.user_id ==> has_opt_text(
                    p,
                    "customer_email"@,
                    opt_view(u.email),
                ) && has_opt_text(p, "customer_first_name"@, opt_view(u.first_name))
                    && has_opt_text(p, "customer_last_name"@, opt_view(u.last_name)))
            &&& (match p.spec_get("items"@) {
                Some(Value::VArr(vs)) => vs@.len() == order_items_here.len() && forall|idx: int|
                    0 <= idx < order_items_here.len() ==> is_item_record(
                        #[trigger] vs@[idx],
                        order_items_here[idx],
                        store,
                    ),
                _ => false,
            })
            &&& has_int(p, "ticket_count"@, totals_here.ticket_count)
            &&& has_int(p, "subtotal"@, totals_here.subtotal)
            &&& has_int(p, "refunded_subtotal"@, totals_here.refunded_subtotal)
            &&& has_int(p, "fees_total"@, totals_here.fees_total)
            &&& has_int(p, "refunded_fees_total"@, totals_here.refunded_fees_total)
            &&& has_int(p, "discount_total"@, totals_here.discount_total)
            &&& has_int(p, "refunded_discount_total"@, totals_here.refunded_discount_total)
            &&& has_int(p, "user_id"@, o.on_behalf_of_user_id.unwrap_or(o.user_id) as int)
        }
    &&& forall|k: Seq<char>|
        #[trigger] p.spec_get(k) is Some ==> k == "timestamp"@ || k == "webhook_event_type"@ || k
            == "event_id"@ || k == "event_name"@ || k == "venue_id"@ || k == "venue_name"@ || k
            == "event_start"@ || k == "order_number"@ || k == "customer_email"@ || k
            == "customer_first_name"@ || k == "customer_last_name"@ || k == "items"@ || k
            == "ticket_count"@ || k == "subtotal"@ || k == "refunded_subtotal"@ || k
            == "fees_total"@ || k == "refunded_fees_total"@ || k == "discount_total"@ || k
            == "refunded_discount_total"@ || k == "user_id"@
}

#[verifier::rlimit(50)]
fn build_order_payload(ev: &DomainEvent, webhook_type: &str, store: &Store) -> (r: Result<
    Payload,
    DatabaseError,
>)
    requires
        store.wf(),
        ev.main_id is Some,
    ensures
        r is Ok <==> order_refs_ok(*store, ev.main_id->0),
        r matches Ok(p) ==> order_payload(p, *ev, *store, webhook_type@),
        r matches Err(e) ==> (e.code == ErrorCode::QueryError || e.code
            == ErrorCode::MultipleResultsWhenOneExpected),
{
    let oid = match ev.main_id {
        Some(v) => v,
        None => {
            return Err(DatabaseError::with_text(ErrorCode::QueryError, "Error loading order"));
        },
    };
    let order = match store.find_order(oid) {
        Some(o) => *o,
        None => {
            return Err(DatabaseError::with_text(ErrorCode::QueryError, "Error loading order"));
        },
    };
    let customer = match store.find_user(order.user_id) {
        Some(u) => u,
        None => {
            proof {
                crate::store::lemma_order_unique(*store, order);
            }
            return Err(DatabaseError::with_text(ErrorCode::QueryError, "Error loading user"));
        },
    };
    let show_opt = match order_show_event(oid, store) {
        Ok(v) => v,
        Err(e) => {
            return Err(e);
        },
    };
    proof {
        reveal_strlit("event_id");
        reveal_strlit("event_name");
        reveal_strlit("venue_id");
        reveal_strlit("venue_name");
        reveal_strlit("event_start");
        reveal_strlit("webhook_event_type");
        reveal_strlit("order_number");
        reveal_strlit("customer_email");
        reveal_strlit("customer_first_name");
        reveal_strlit("customer_last_name");
        reveal_strlit("items");
        reveal_strlit("ticket_count");
        reveal_strlit("subtotal");
        reveal_strlit("refunded_subtotal");
        reveal_strlit("fees_total");
        reveal_strlit("refunded_fees_total");
        reveal_strlit("discount_total");
        reveal_strlit("refunded_discount_total");
        reveal_strlit("user_id");
        reveal_strlit("timestamp");
        assert("event_id"@.len() == 8 && "event_name"@.len() == 10 && "venue_id"@.len() == 8
            && "venue_name"@.len() == 10 && "event_start"@.len() == 11
            && "webhook_event_type"@.len() == 18 && "order_number"@.len() == 12
            && "customer_email"@.len() == 14 && "customer_first_name"@.len() == 19
            && "customer_last_name"@.len() == 18 && "items"@.len() == 5 && "ticket_count"@.len()
            == 12 && "subtotal"@.len() == 8 && "refunded_subtotal"@.len() == 17
            && "fees_total"@.len() == 10 && "refunded_fees_total"@.len() == 19
            && "discount_total"@.len() == 14 && "refunded_discount_total"@.len() == 23
            && "user_id"@.len() == 7 && "timestamp"@.len() == 9);
        assert("subtotal"@ != "event_id"@ && "subtotal"@ != "venue_id"@) by {
            assert("subtotal"@[0] == 's' && "event_id"@[0] == 'e' && "venue_id"@[0] == 'v');
        }
        assert("fees_total"@ != "event_name"@ && "fees_total"@ != "venue_name"@) by {
            assert("fees_total"@[0] == 'f' && "event_name"@[0] == 'e' && "venue_name"@[0] == 'v');
        }
        assert("webhook_event_type"@ != "customer_last_name"@) by {
            assert("webhook_event_type"@[0] == 'w' && "customer_last_name"@[0] == 'c');
        }
        assert("order_number"@ != "ticket_count"@) by {
            assert("order_number"@[0] == 'o' && "ticket_count"@[0] == 't');
        }
        assert("customer_email"@ != "discount_total"@) by {
            assert("customer_email"@[0] == 'c' && "discount_total"@[0] == 'd');
        }
        assert("customer_first_name"@ != "refunded_fees_total"@) by {
            assert("customer_first_name"@[0] == 'c' && "refunded_fees_total"@[0] == 'r');
        }
    }
    let mut p = Payload::new();
    match &show_opt {
        Some(e) => {
            insert_event_metadata(&mut p, e, store);
        },
        None => {},
    }
    p.insert("webhook_event_type", Value::VText(webhook_type.to_owned()));
    p.insert("order_number", Value::VText(crate::strutil::u64_to_string(order.id)));
    insert_opt_text(&mut p, "customer_email", &customer.email);
    insert_opt_text(&mut p, "customer_first_name", &customer.first_name);
    insert_opt_text(&mut p, "customer_last_name", &customer.last_name);
    let agg = aggregate_order_items(oid, store);
    p.insert("items", Value::VArr(agg.items));
    p.insert("ticket_count", Value::VInt(agg.ticket_count));
    p.insert("subtotal", Value::VInt(agg.subtotal));
    p.insert("refunded_subtotal", Value::VInt(agg.refunded_subtotal));
    p.insert("fees_total", Value::VInt(agg.fees_total));
    p.insert("refunded_fees_total", Value::VInt(agg.refunded_fees_total));
    p.insert("discount_total", Value::VInt(agg.discount_total));
    p.insert("refunded_discount_total", Value::VInt(agg.refunded_discount_total));
    let attributed = match order.on_behalf_of_user_id {
        Some(b) => b,
        None => order.user_id,
    };
    p.insert("user_id", Value::VInt(attributed as i128));
    p.insert("timestamp", Value::VInt(ev.created_at as i128));
    proof {
        crate::store::lemma_order_unique(*store, order);
        lemma_user_unique(*store, *customer);
        match show_opt {
            Some(e0) => {
                assert forall|e: ShowEvent| #[trigger] order_show_of(*store, oid, e) implies e
                    == e0 by {
                    let w = choose|w: int|
                        0 <= w < store.order_items@.len() && (
                        #[trigger] store.order_items@[w]).order_id == oid && item_resolves_to(
                            *store,
                            store.order_items@[w],
                            e,
                        );
                }
            },
            None => {
                assert forall|e: ShowEvent| !(#[trigger] order_show_of(*store, oid, e)) by {
                    if order_show_of(*store, oid, e) {
                        let w = choose|w: int|
                            0 <= w < store.order_items@.len() && (
                            #[trigger] store.order_items@[w]).order_id == oid && item_resolves_to(
                                *store,
                                store.order_items@[w],
                                e,
                            );
                    }
                }
            },
        }
    }
    Ok(p)
}


/// Whether the ticket instance resolves to the show `e`.
pub open spec fn ticket_resolves_to(store: Store, ticket_instance_id: u64, e: ShowEvent) -> bool {
    exists|k: int, b: int|
        0 <= k < store.ticket_instances@.len() && 0 <= b < store.show_events@.len() && (
        #[trigger] store.ticket_instances@[k]).id == ticket_instance_id && (
        #[trigger] store.show_events@[b]).id == store.ticket_instances@[k].event_id
            && store.show_events@[b] == e
}

/// Whether some ticket of the transfer resolves to the show `e`.
pub open spec fn transfer_show_of(store: Store, transfer_id: u64, e: ShowEvent) -> bool {
    exists|j: int|
        0 <= j < store.transfer_tickets@.len() && (
        #[trigger] store.transfer_tickets@[j]).transfer_id == transfer_id && ticket_resolves_to(
            store,
            store.transfer_tickets@[j].ticket_instance_id,
            e,
        )
}

/// Whether all tickets of the transfer agree on one show.
pub open spec fn transfer_show_unambiguous(store: Store, transfer_id: u64) -> bool {
    forall|e1: ShowEvent, e2: ShowEvent|
        #[trigger] transfer_show_of(store, transfer_id, e1) && #[trigger] transfer_show_of(
            store,
            transfer_id,
            e2,
        ) ==> e1 == e2
}

/// A ticket resolves to at most one show.
pub proof fn lemma_ticket_show_unique(store: Store, ticket_instance_id: u64, e1: ShowEvent, e2: ShowEvent)
    requires
        store.wf(),
        ticket_resolves_to(store, ticket_instance_id, e1),
        ticket_resolves_to(store, ticket_instance_id, e2),
    ensures
        e1 == e2,
{
    let (k1, b1) = choose|k: int, b: int|
        0 <= k < store.ticket_instances@.len() && 0 <= b < store.show_events@.len() && (
        #[trigger] store.ticket_instances@[k]).id == ticket_instance_id && (
        #[trigger] store.show_events@[b]).id == store.ticket_instances@[k].event_id
            && store.show_events@[b] == e1;
    let (k2, b2) = choose|k: int, b: int|
        0 <= k < store.ticket_instances@.len() && 0 <= b < store.show_events@.len() && (
        #[trigger] store.ticket_instances@[k]).id == ticket_instance_id && (
        #[trigger] store.show_events@[b]).id == store.ticket_instances@[k].event_id
            && store.show_events@[b] == e2;
    if k1 != k2 {
        assert(false);
    }
    if b1 != b2 {
        assert(false);
    }
}

/// Resolves one ticket's show, if the instance and its show both exist.
fn resolve_ticket_show(ticket_instance_id: u64, store: &Store) -> (r: Option<ShowEvent>)
    requires
        store.wf(),
    ensures
        match r {
            Some(e) => store.show_events@.contains(e) && ticket_resolves_to(
                *store,
                ticket_instance_id,
                e,
            ),
            None => forall|e: ShowEvent| !ticket_resolves_to(*store, ticket_instance_id, e),
        },
{
    let ti = match store.find_ticket_instance(ticket_instance_id) {
        Some(t) => t,
        None => {
            proof {
                assert forall|e: ShowEvent| !ticket_resolves_to(*store, ticket_instance_id, e) by {
                    if ticket_resolves_to(*store, ticket_instance_id, e) {
                        let (k, b) = choose|k: int, b: int|
                            0 <= k < store.ticket_instances@.len() && 0 <= b
                                < store.show_events@.len() && (
                            #[trigger] store.ticket_instances@[k]).id == ticket_instance_id && (
                            #[trigger] store.show_events@[b]).id
                                == store.ticket_instances@[k].event_id && store.show_events@[b]
                                == e;
                    }
                }
            }
            return None;
        },
    };
    let show = match store.find_show_event(ti.event_id) {
        Some(e) => e,
        None => {
            proof {
                lemma_ticket_instance_unique(*store, *ti);
                assert forall|e: ShowEvent| !ticket_resolves_to(*store, ticket_instance_id, e) by {
                    if ticket_resolves_to(*store, ticket_instance_id, e) {
                        let (k, b) = choose|k: int, b: int|
                            0 <= k < store.ticket_instances@.len() && 0 <= b
                                < store.show_events@.len() && (
                            #[trigger] store.ticket_instances@[k]).id == ticket_instance_id && (
                            #[trigger] store.show_events@[b]).id
                                == store.ticket_instances@[k].event_id && store.show_events@[b]
                                == e;
                        assert(store.ticket_instances@.contains(store.ticket_instances@[k]));
                        assert(store.show_events@.contains(store.show_events@[b]));
                    }
                }
            }
            return None;
        },
    };
    let copy = clone_show_event(show);
    proof {
        let k = choose|k: int|
            0 <= k < store.ticket_instances@.len() && store.ticket_instances@[k] == *ti;
        let b = choose|b: int|
            0 <= b < store.show_events@.len() && store.show_events@[b] == *show;
    }
    Some(copy)
}

/// Resolves the show a transfer is about; a dangling ticket reference is
/// skipped, and two different shows are flagged rather than silently
/// picking one.
pub fn transfer_show_event(transfer_id: u64, store: &Store) -> (r: Result<
    Option<ShowEvent>,
    DatabaseError,
>)
    requires
        store.wf(),
    ensures
        match r {
            Ok(Some(e)) => store.show_events@.contains(e) && transfer_show_of(
                *store,
                transfer_id,
                e,
            ) && transfer_show_unambiguous(*store, transfer_id),
            Ok(None) => forall|e: ShowEvent| !transfer_show_of(*store, transfer_id, e),
            Err(e) => e.code == ErrorCode::MultipleResultsWhenOneExpected
                && !transfer_show_unambiguous(*store, transfer_id),
        },
{
    let mut found: Option<ShowEvent> = None;
    let mut i: usize = 0;
    while i < store.transfer_tickets.len()
        invariant
            store.wf(),
            i <= store.transfer_tickets@.len(),
            match found {
                Some(e) => {
                    &&& store.show_events@.contains(e)
                    &&& transfer_show_of(*store, transfer_id, e)
                    &&& forall|j: int, e2: ShowEvent|
                        0 <= j < i && store.transfer_tickets@[j].transfer_id == transfer_id
                            && #[trigger] ticket_resolves_to(
                            *store,
                            store.transfer_tickets@[j].ticket_instance_id,
                            e2,
                        ) ==> e2 == e
                },
                None => forall|j: int, e2: ShowEvent|
                    0 <= j < i ==> !(store.transfer_tickets@[j].transfer_id == transfer_id
                        && #[trigger] ticket_resolves_to(
                        *store,
                        store.transfer_tickets@[j].ticket_instance_id,
                        e2,
                    )),
            },
        decreases store.transfer_tickets@.len() - i,
    {
        let tt = store.transfer_tickets[i];
        if tt.transfer_id == transfer_id {
            let resolved = resolve_ticket_show(tt.ticket_instance_id, store);
            match resolved {
                Some(e) => {
                    match &found {
                        Some(prev) => {
                            if prev.id != e.id {
                                proof {
                                    assert(transfer_show_of(*store, transfer_id, e)) by {
                                        assert(store.transfer_tickets@[i as int].transfer_id
                                            == transfer_id && ticket_resolves_to(
                                            *store,
                                            store.transfer_tickets@[i as int].ticket_instance_id,
                                            e,
                                        ));
                                    }
                                    assert(!transfer_show_unambiguous(*store, transfer_id));
                                }
                                return Err(
                                    DatabaseError::with_text(
                                        ErrorCode::MultipleResultsWhenOneExpected,
                                        "Transfer spans more than one event",
                                    ),
                                );
                            }
                            proof {
                                lemma_show_event_unique(*store, e);
                                assert forall|j: int, e2: ShowEvent|
                                    0 <= j < i + 1 && store.transfer_tickets@[j].transfer_id
                                        == transfer_id && #[trigger] ticket_resolves_to(
                                        *store,
                                        store.transfer_tickets@[j].ticket_instance_id,
                                        e2,
                                    ) implies e2 == *prev by {
                                    if j == i {
                                        lemma_ticket_show_unique(
                                            *store,
                                            store.transfer_tickets@[j].ticket_instance_id,
                                            e,
                                            e2,
                                        );
                                    }
                                }
                            }
                        },
                        None => {
                            let ghost ev = e;
                            found = Some(e);
                            proof {
                                assert(transfer_show_of(*store, transfer_id, ev)) by {
                                    assert(store.transfer_tickets@[i as int].transfer_id
                                        == transfer_id && ticket_resolves_to(
                                        *store,
                                        store.transfer_tickets@[i as int].ticket_instance_id,
                                        ev,
                                    ));
                                }
                                assert forall|j: int, e2: ShowEvent|
                                    0 <= j < i + 1 && store.transfer_tickets@[j].transfer_id
                                        == transfer_id && #[trigger] ticket_resolves_to(
                                        *store,
                                        store.transfer_tickets@[j].ticket_instance_id,
                                        e2,
                                    ) implies e2 == ev by {
                                    if j == i {
                                        lemma_ticket_show_unique(
                                            *store,
                                            store.transfer_tickets@[j].ticket_instance_id,
                                            ev,
                                            e2,
                                        );
                                    }
                                }
                            }
                        },
                    }
                },
                None => {},
            }
        }
        i = i + 1;
    }
    proof {
        match &found {
            Some(e0) => {
                assert forall|e1: ShowEvent, e2: ShowEvent|
                    #[trigger] transfer_show_of(*store, transfer_id, e1)
                        && #[trigger] transfer_show_of(*store, transfer_id, e2) implies e1
                    == e2 by {
                    let j1 = choose|j: int|
                        0 <= j < store.transfer_tickets@.len() && (
                        #[trigger] store.transfer_tickets@[j]).transfer_id == transfer_id
                            && ticket_resolves_to(
                            *store,
                            store.transfer_tickets@[j].ticket_instance_id,
                            e1,
                        );
                    let j2 = choose|j: int|
                        0 <= j < store.transfer_tickets@.len() && (
                        #[trigger] store.transfer_tickets@[j]).transfer_id == transfer_id
                            && ticket_resolves_to(
                            *store,
                            store.transfer_tickets@[j].ticket_instance_id,
                            e2,
                        );
                }
            },
            None => {
                assert forall|e: ShowEvent| !transfer_show_of(*store, transfer_id, e) by {
                    if transfer_show_of(*store, transfer_id, e) {
                        let j = choose|j: int|
                            0 <= j < store.transfer_tickets@.len() && (
                            #[trigger] store.transfer_tickets@[j]).transfer_id == transfer_id
                                && ticket_resolves_to(
                                *store,
                                store.transfer_tickets@[j].ticket_instance_id,
                                e,
                            );
                    }
                }
            },
        }
    }
    Ok(found)
}

/// The payload pieces shared by the recipient and transferer variants:
/// transfer shape, ticket count, timestamp, and show metadata.
pub open spec fn transfer_base(p: Payload, t: crate::transfers::Transfer, ev: DomainEvent, store: Store) -> bool {
    &&& has_bool(p, "direct_transfer"@, t.direct)
    &&& has_int(
        p,
        "number_of_tickets_transferred"@,
        crate::transfers::spec_ticket_count(store, t.id) as int,
    )
    &&& has_int(p, "timestamp"@, ev.created_at as int)
    &&& forall|e: ShowEvent|
        #[trigger] transfer_show_of(store, t.id, e) ==> event_metadata(p, e, store)
}

/// The webhook type the recipient sees for each transition; who
/// cancelled decides between a sender cancellation and a decline.
pub open spec fn recipient_webhook_type(et: crate::enums::DomainEventTypes, t: crate::transfers::Transfer) -> Seq<char> {
    match et {
        crate::enums::DomainEventTypes::TransferTicketCancelled => if t.cancelled_by_user_id
            == Some(t.source_user_id) {
            "cancel_pending_transfer"@
        } else {
            "decline_pending_transfer"@
        },
        crate::enums::DomainEventTypes::TransferTicketCompleted => "claim_pending_transfer"@,
        _ => "receive_pending_transfer"@,
    }
}

/// The webhook type the transferer sees, from the sender's perspective.
pub open spec fn transferer_webhook_type(et: crate::enums::DomainEventTypes, t: crate::transfers::Transfer) -> Seq<char> {
    match et {
        crate::enums::DomainEventTypes::TransferTicketCancelled => if t.cancelled_by_user_id
            == Some(t.source_user_id) {
            "cancel_pending_transfer"@
        } else {
            "initiated_transfer_declined"@
        },
        crate::enums::DomainEventTypes::TransferTicketCompleted => "initiated_transfer_claimed"@,
        _ => "initiate_pending_transfer"@,
    }
}

/// The recipient's contact fallback from the raw transfer address, only
/// for the declared contact kind.
pub open spec fn email_fallback(t: crate::transfers::Transfer) -> Option<Seq<char>> {
    if t.transfer_message_type == Some(crate::enums::TransferMessageType::Email) {
        opt_view(t.transfer_address)
    } else {
        None
    }
}

pub open spec fn phone_fallback(t: crate::transfers::Transfer) -> Option<Seq<char>> {
    if t.transfer_message_type == Some(crate::enums::TransferMessageType::Phone) {
        opt_view(t.transfer_address)
    } else {
        None
    }
}

/// The payload delivered to the transfer's recipient: keyed by the
/// destination identity, carrying the receive URL and the sender's name.
pub open spec fn recipient_payload(p: Payload, ev: DomainEvent, url: Seq<char>, store: Store) -> bool {
    &&& p.wf()
    &&& forall|t: crate::transfers::Transfer|
        store.transfers@.contains(t) && Some(t.id) == ev.main_id ==> {
            let count = crate::transfers::spec_ticket_count(store, t.id);
            &&& transfer_base(p, t, ev, store)
            &&& has_opt_id(
                p,
                "user_id"@,
                or_id(t.destination_temporary_user_id, t.destination_user_id),
            )
            &&& (forall|w: crate::store::Wallet|
                crate::transfers::default_wallet_of(store, t.source_user_id, w) ==> has_text(
                    p,
                    "receive_tickets_url"@,
                    crate::transfers::spec_receive_url(
                        url,
                        t.transfer_key,
                        t.source_user_id,
                        count,
                        crate::transfers::transfer_signature(t, count, w),
                    ),
                ))
            &&& (forall|u: crate::store::User|
                store.users@.contains(u) && u.id == t.source_user_id ==> has_opt_text(
                    p,
                    "transferer_first_name"@,
                    opt_view(u.first_name),
                ) && has_opt_text(p, "transferer_email"@, opt_view(u.email)) && has_opt_text(
                    p,
                    "transferer_phone"@,
                    opt_view(u.phone),
                ))
            &&& has_text(p, "webhook_event_type"@, recipient_webhook_type(ev.event_type, t))
            &&& (t.transfer_message_type == Some(crate::enums::TransferMessageType::Email)
                ==> has_opt_text(p, "recipient_email"@, opt_view(t.transfer_address)))
            &&& (t.transfer_message_type == Some(crate::enums::TransferMessageType::Phone)
                ==> has_opt_text(p, "recipient_phone"@, opt_view(t.transfer_address)))
        }
    &&& forall|k: Seq<char>|
        #[trigger] p.spec_get(k) is Some ==> k == "direct_transfer"@ || k
            == "number_of_tickets_transferred"@ || k == "timestamp"@ || k == "event_id"@ || k
            == "event_name"@ || k == "venue_id"@ || k == "venue_name"@ || k == "event_start"@ || k
            == "user_id"@ || k == "receive_tickets_url"@ || k == "transferer_first_name"@ || k
            == "webhook_event_type"@ || k == "transferer_email"@ || k == "transferer_phone"@ || k
            == "recipient_email"@ || k == "recipient_phone"@
}

/// The payload delivered back to the sender: keyed by the source account,
/// carrying the recipient's identity as far as it is known.
pub open spec fn transferer_payload(p: Payload, ev: DomainEvent, store: Store) -> bool {
    &&& p.wf()
    &&& forall|t: crate::transfers::Transfer|
        store.transfers@.contains(t) && Some(t.id) == ev.main_id ==> {
            &&& transfer_base(p, t, ev, store)
            &&& has_int(p, "user_id"@, t.source_user_id as int)
            &&& has_opt_id(
                p,
                "recipient_id"@,
                or_id(t.destination_temporary_user_id, t.destination_user_id),
            )
            &&& (match t.destination_user_id {
                Some(du) => forall|u: crate::store::User|
                    store.users@.contains(u) && u.id == du ==> has_opt_text(
                        p,
                        "recipient_first_name"@,
                        opt_view(u.first_name),
                    ) && has_opt_text(
                        p,
                        "recipient_email"@,
                        or_opt(opt_view(u.email), email_fallback(t)),
                    ) && has_opt_text(
                        p,
                        "recipient_phone"@,
                        or_opt(opt_view(u.phone), phone_fallback(t)),
                    ),
                None => has_null(p, "recipient_first_name"@) && has_opt_text(
                    p,
                    "recipient_email"@,
                    email_fallback(t),
                ) && has_opt_text(p, "recipient_phone"@, phone_fallback(t)),
            })
            &&& has_text(p, "webhook_event_type"@, transferer_webhook_type(ev.event_type, t))
            &&& (forall|u: crate::store::User|
                store.users@.contains(u) && u.id == t.source_user_id ==> has_opt_text(
                    p,
                    "transferer_email"@,
                    opt_view(u.email),
                ) && has_opt_text(p, "transferer_phone"@, opt_view(u.phone)))
        }
    &&& forall|k: Seq<char>|
        #[trigger] p.spec_get(k) is Some ==> k == "direct_transfer"@ || k
            == "number_of_tickets_transferred"@ || k == "timestamp"@ || k == "event_id"@ || k
            == "event_name"@ || k == "venue_id"@ || k == "venue_name"@ || k == "event_start"@ || k
            == "user_id"@ || k == "recipient_id"@ || k == "recipient_first_name"@ || k
            == "recipient_email"@ || k == "recipient_phone"@ || k == "webhook_event_type"@ || k
            == "transferer_email"@ || k == "transferer_phone"@
}


#[verifier::rlimit(50)]
fn build_recipient_payload(
    ev: &DomainEvent,
    t: &crate::transfers::Transfer,
    front_end_url: &str,
    store: &Store,
) -> (r: Result<Payload, DatabaseError>)
    requires
        store.wf(),
        store.transfers@.contains(*t),
        Some(t.id) == ev.main_id,
    ensures
        r is Ok <==> (has_user(*store, t.source_user_id) && crate::store::has_default_wallet(
            *store,
            t.source_user_id,
        ) && transfer_show_unambiguous(*store, t.id)),
        r matches Ok(p) ==> recipient_payload(p, *ev, front_end_url@, *store),
        r matches Err(e) ==> (e.code == ErrorCode::QueryError || e.code == ErrorCode::NoResults
            || e.code == ErrorCode::MultipleResultsWhenOneExpected),
{
    let transferer = match store.find_user(t.source_user_id) {
        Some(u) => u,
        None => {
            return Err(DatabaseError::with_text(ErrorCode::QueryError, "Error loading user"));
        },
    };
    let receive_tickets_url = match t.receive_url(front_end_url, store) {
        Ok(u) => u,
        Err(e) => {
            return Err(e);
        },
    };
    let show_opt = match transfer_show_event(t.id, store) {
        Ok(v) => v,
        Err(e) => {
            return Err(e);
        },
    };
    let count = t.transfer_ticket_count(store);
    proof {
        reveal_strlit("direct_transfer");
        reveal_strlit("number_of_tickets_transferred");
        reveal_strlit("timestamp");
        reveal_strlit("event_id");
        reveal_strlit("event_name");
        reveal_strlit("venue_id");
        reveal_strlit("venue_name");
        reveal_strlit("event_start");
        reveal_strlit("user_id");
        reveal_strlit("receive_tickets_url");
        reveal_strlit("transferer_first_name");
        reveal_strlit("webhook_event_type");
        reveal_strlit("transferer_email");
        reveal_strlit("transferer_phone");
        reveal_strlit("recipient_email");
        reveal_strlit("recipient_phone");
        assert("direct_transfer"@.len() == 15 && "number_of_tickets_transferred"@.len() == 29
            && "timestamp"@.len() == 9 && "event_id"@.len() == 8 && "event_name"@.len() == 10
            && "venue_id"@.len() == 8 && "venue_name"@.len() == 10 && "event_start"@.len() == 11
            && "user_id"@.len() == 7 && "receive_tickets_url"@.len() == 19
            && "transferer_first_name"@.len() == 21 && "webhook_event_type"@.len() == 18
            && "transferer_email"@.len() == 16 && "transferer_phone"@.len() == 16
            && "recipient_email"@.len() == 15 && "recipient_phone"@.len() == 15);
        assert("transferer_email"@ != "transferer_phone"@) by {
            assert("transferer_email"@[11] == 'e' && "transferer_phone"@[11] == 'p');
        }
        assert("recipient_email"@ != "recipient_phone"@) by {
            assert("recipient_email"@[10] == 'e' && "recipient_phone"@[10] == 'p');
        }
        assert("recipient_email"@ != "direct_transfer"@ && "recipient_phone"@
            != "direct_transfer"@) by {
            assert("recipient_email"@[0] == 'r' && "recipient_phone"@[0] == 'r'
                && "direct_transfer"@[0] == 'd');
        }
    }
    let mut p = Payload::new();
    p.insert("direct_transfer", Value::VBool(t.direct));
    p.insert("number_of_tickets_transferred", Value::VInt(count as i128));
    p.insert("timestamp", Value::VInt(ev.created_at as i128));
    match &show_opt {
        Some(e) => {
            insert_event_metadata(&mut p, e, store);
        },
        None => {},
    }
    insert_opt_id(
        &mut p,
        "user_id",
        match t.destination_temporary_user_id {
            Some(v) => Some(v),
            None => t.destination_user_id,
        },
    );
    p.insert("receive_tickets_url", Value::VText(receive_tickets_url));
    insert_opt_text(&mut p, "transferer_first_name", &transferer.first_name);
    let webhook_type = match ev.event_type {
        crate::enums::DomainEventTypes::TransferTicketCancelled => {
            if t.cancelled_by_user_id == Some(t.source_user_id) {
                "cancel_pending_transfer"
            } else {
                "decline_pending_transfer"
            }
        },
        crate::enums::DomainEventTypes::TransferTicketCompleted => "claim_pending_transfer",
        _ => "receive_pending_transfer",
    };
    p.insert("webhook_event_type", Value::VText(webhook_type.to_owned()));
    insert_opt_text(&mut p, "transferer_email", &transferer.email);
    insert_opt_text(&mut p, "transferer_phone", &transferer.phone);
    match t.transfer_message_type {
        Some(crate::enums::TransferMessageType::Email) => {
            insert_opt_text(&mut p, "recipient_email", &t.transfer_address);
        },
        Some(crate::enums::TransferMessageType::Phone) => {
            insert_opt_text(&mut p, "recipient_phone", &t.transfer_address);
        },
        None => {},
    }
    proof {
        crate::store::lemma_transfer_unique(*store, *t);
        lemma_user_unique(*store, *transferer);
        match show_opt {
            Some(e0) => {
                assert forall|e: ShowEvent| #[trigger] transfer_show_of(*store, t.id, e) implies e
                    == e0 by {
                }
            },
            None => {
            },
        }
    }
    Ok(p)
}

#[verifier::rlimit(50)]
fn build_transferer_payload(ev: &DomainEvent, t: &crate::transfers::Transfer, store: &Store) -> (r:
    Result<Payload, DatabaseError>)
    requires
        store.wf(),
        store.transfers@.contains(*t),
        Some(t.id) == ev.main_id,
    ensures
        r is Ok <==> (has_user(*store, t.source_user_id) && (match t.destination_user_id {
            Some(du) => has_user(*store, du),
            None => true,
        }) && transfer_show_unambiguous(*store, t.id)),
        r matches Ok(p) ==> transferer_payload(p, *ev, *store),
        r matches Err(e) ==> (e.code == ErrorCode::QueryError || e.code
            == ErrorCode::MultipleResultsWhenOneExpected),
{
    let transferer = match store.find_user(t.source_user_id) {
        Some(u) => u,
        None => {
            return Err(DatabaseError::with_text(ErrorCode::QueryError, "Error loading user"));
        },
    };
    let recipient = match t.destination_user_id {
        Some(du) => {
            match store.find_user(du) {
                Some(u) => Some(u),
                None => {
                    return Err(
                        DatabaseError::with_text(ErrorCode::QueryError, "Error loading user"),
                    );
                },
            }
        },
        None => None,
    };
    let show_opt = match transfer_show_event(t.id, store) {
        Ok(v) => v,
        Err(e) => {
            return Err(e);
        },
    };
    let count = t.transfer_ticket_count(store);
    proof {
        reveal_strlit("direct_transfer");
        reveal_strlit("number_of_tickets_transferred");
        reveal_strlit("timestamp");
        reveal_strlit("event_id");
        reveal_strlit("event_name");
        reveal_strlit("venue_id");
        reveal_strlit("venue_name");
        reveal_strlit("event_start");
        reveal_strlit("user_id");
        reveal_strlit("recipient_id");
        reveal_strlit("recipient_first_name");
        reveal_strlit("recipient_email");
        reveal_strlit("recipient_phone");
        reveal_strlit("webhook_event_type");
        reveal_strlit("transferer_email");
        reveal_strlit("transferer_phone");
        assert("direct_transfer"@.len() == 15 && "number_of_tickets_transferred"@.len() == 29
            && "timestamp"@.len() == 9 && "event_id"@.len() == 8 && "event_name"@.len() == 10
            && "venue_id"@.len() == 8 && "venue_name"@.len() == 10 && "event_start"@.len() == 11
            && "user_id"@.len() == 7 && "recipient_id"@.len() == 12
            && "recipient_first_name"@.len() == 20 && "recipient_email"@.len() == 15
            && "recipient_phone"@.len() == 15 && "webhook_event_type"@.len() == 18
            && "transferer_email"@.len() == 16 && "transferer_phone"@.len() == 16);
        assert("transferer_email"@ != "transferer_phone"@) by {
            assert("transferer_email"@[11] == 'e' && "transferer_phone"@[11] == 'p');
        }
        assert("recipient_email"@ != "recipient_phone"@) by {
            assert("recipient_email"@[10] == 'e' && "recipient_phone"@[10] == 'p');
        }
        assert("recipient_email"@ != "direct_transfer"@ && "recipient_phone"@
            != "direct_transfer"@) by {
            assert("recipient_email"@[0] == 'r' && "recipient_phone"@[0] == 'r'
                && "direct_transfer"@[0] == 'd');
        }
    }
    let mut p = Payload::new();
    p.insert("direct_transfer", Value::VBool(t.direct));
    p.insert("number_of_tickets_transferred", Value::VInt(count as i128));
    p.insert("timestamp", Value::VInt(ev.created_at as i128));
    match &show_opt {
        Some(e) => {
            insert_event_metadata(&mut p, e, store);
        },
        None => {},
    }
    p.insert("user_id", Value::VInt(t.source_user_id as i128));
    insert_opt_id(
        &mut p,
        "recipient_id",
        match t.destination_temporary_user_id {
            Some(v) => Some(v),
            None => t.destination_user_id,
        },
    );
    match &recipient {
        Some(u) => {
            insert_opt_text(&mut p, "recipient_first_name", &u.first_name);
            let email = match &u.email {
                Some(e) => Some(e.clone()),
                None => {
                    match t.transfer_message_type {
                        Some(crate::enums::TransferMessageType::Email) => {
                            crate::strutil::clone_opt_string(&t.transfer_address)
                        },
                        _ => None,
                    }
                },
            };
            insert_opt_text(&mut p, "recipient_email", &email);
            let phone = match &u.phone {
                Some(v) => Some(v.clone()),
                None => {
                    match t.transfer_message_type {
                        Some(crate::enums::TransferMessageType::Phone) => {
                            crate::strutil::clone_opt_string(&t.transfer_address)
                        },
                        _ => None,
                    }
                },
            };
            insert_opt_text(&mut p, "recipient_phone", &phone);
        },
        None => {
            p.insert("recipient_first_name", Value::VNull);
            let email = match t.transfer_message_type {
                Some(crate::enums::TransferMessageType::Email) => crate::strutil::clone_opt_string(
                    &t.transfer_address,
                ),
                _ => None,
            };
            insert_opt_text(&mut p, "recipient_email", &email);
            let phone = match t.transfer_message_type {
                Some(crate::enums::TransferMessageType::Phone) => crate::strutil::clone_opt_string(
                    &t.transfer_address,
                ),
                _ => None,
            };
            insert_opt_text(&mut p, "recipient_phone", &phone);
        },
    }
    let webhook_type = match ev.event_type {
        crate::enums::DomainEventTypes::TransferTicketCancelled => {
            if t.cancelled_by_user_id == Some(t.source_user_id) {
                "cancel_pending_transfer"
            } else {
                "initiated_transfer_declined"
            }
        },
        crate::enums::DomainEventTypes::TransferTicketCompleted => "initiated_transfer_claimed",
        _ => "initiate_pending_transfer",
    };
    p.insert("webhook_event_type", Value::VText(webhook_type.to_owned()));
    insert_opt_text(&mut p, "transferer_email", &transferer.email);
    insert_opt_text(&mut p, "transferer_phone", &transferer.phone);
    proof {
        crate::store::lemma_transfer_unique(*store, *t);
        lemma_user_unique(*store, *transferer);
        match &recipient {
            Some(u) => {
                lemma_user_unique(*store, **u);
            },
            None => {},
        }
        match show_opt {
            Some(e0) => {
                assert forall|e: ShowEvent| #[trigger] transfer_show_of(*store, t.id, e) implies e
                    == e0 by {
                }
            },
            None => {
            },
        }
    }
    Ok(p)
}


/// The webhook type an order event reports: a refund when the event is a
/// refund, or when a resent confirmation covers an order that has one.
pub open spec fn order_webhook_type(ev: DomainEvent, store: Store) -> Seq<char> {
    match ev.event_type {
        crate::enums::DomainEventTypes::OrderRefund => "refund_completed"@,
        crate::enums::DomainEventTypes::OrderResendConfirmationTriggered => if order_has_refunds(
            store,
            ev.main_id->0,
        ) {
            "refund_completed"@
        } else {
            "purchase_ticket"@
        },
        _ => "purchase_ticket"@,
    }
}

/// What `webhook_payloads` promises of its result, per event type.
pub open spec fn payloads_ok(ev: DomainEvent, url: Seq<char>, store: Store, ps: Seq<Payload>) -> bool {
    match ev.event_type {
        crate::enums::DomainEventTypes::UserCreated => ps.len() == 1 && user_created_payload(
            ps[0],
            ev,
            store,
        ),
        crate::enums::DomainEventTypes::TemporaryUserCreated => ps.len() == 1
            && temporary_user_created_payload(ps[0], ev, store),
        crate::enums::DomainEventTypes::PushNotificationTokenCreated => if crate::store::has_push_token(
            store,
            ev.main_id->0,
        ) {
            ps.len() == 1 && push_token_payload(ps[0], ev, store)
        } else {
            ps.len() == 0
        },
        crate::enums::DomainEventTypes::OrderCompleted
        | crate::enums::DomainEventTypes::OrderRefund
        | crate::enums::DomainEventTypes::OrderResendConfirmationTriggered => ps.len() == 1
            && order_payload(ps[0], ev, store, order_webhook_type(ev, store)),
        crate::enums::DomainEventTypes::TransferTicketStarted
        | crate::enums::DomainEventTypes::TransferTicketCancelled
        | crate::enums::DomainEventTypes::TransferTicketCompleted => if crate::store::has_transfer(
            store,
            ev.main_id->0,
        ) {
            ps.len() == 2 && recipient_payload(ps[0], ev, url, store) && transferer_payload(
                ps[1],
                ev,
                store,
            )
        } else {
            // a historic gap: the transfer row no longer exists, so the
            // event is skipped rather than failing the batch
            ps.len() == 0
        },
        _ => false,
    }
}

/// Whether the event type has a registered payload builder.
pub open spec fn builder_registered(et: crate::enums::DomainEventTypes) -> bool {
    match et {
        crate::enums::DomainEventTypes::UserCreated
        | crate::enums::DomainEventTypes::TemporaryUserCreated
        | crate::enums::DomainEventTypes::PushNotificationTokenCreated
        | crate::enums::DomainEventTypes::OrderCompleted
        | crate::enums::DomainEventTypes::OrderRefund
        | crate::enums::DomainEventTypes::OrderResendConfirmationTriggered
        | crate::enums::DomainEventTypes::TransferTicketStarted
        | crate::enums::DomainEventTypes::TransferTicketCancelled
        | crate::enums::DomainEventTypes::TransferTicketCompleted => true,
        _ => false,
    }
}

/// When payload materialization succeeds: the event carries an entity
/// id, its type has a registered builder, and the entities the builder
/// joins through resolve.
pub open spec fn webhook_ready(ev: DomainEvent, store: Store) -> bool {
    match ev.main_id {
        None => false,
        Some(id) => match ev.event_type {
            crate::enums::DomainEventTypes::UserCreated => has_user(store, id),
            crate::enums::DomainEventTypes::TemporaryUserCreated => crate::store::has_temporary_user(
                store,
                id,
            ),
            crate::enums::DomainEventTypes::PushNotificationTokenCreated => true,
            crate::enums::DomainEventTypes::OrderCompleted
            | crate::enums::DomainEventTypes::OrderRefund
            | crate::enums::DomainEventTypes::OrderResendConfirmationTriggered => order_refs_ok(
                store,
                id,
            ),
            crate::enums::DomainEventTypes::TransferTicketStarted
            | crate::enums::DomainEventTypes::TransferTicketCancelled
            | crate::enums::DomainEventTypes::TransferTicketCompleted => !crate::store::has_transfer(
                store,
                id,
            ) || (forall|t: crate::transfers::Transfer|
                store.transfers@.contains(t) && t.id == id ==> has_user(store, t.source_user_id)
                    && crate::store::has_default_wallet(store, t.source_user_id) && (match t.destination_user_id {
                    Some(du) => has_user(store, du),
                    None => true,
                }) && transfer_show_unambiguous(store, t.id)),
            _ => false,
        },
    }
}

impl DomainEvent {
    /// Materializes the external payloads of this event: one payload for
    /// account and order events, a recipient/transferer pair for
    /// transfer events, none for a skipped event (a deleted push token,
    /// a missing transfer row). An event type without a registered
    /// builder is a hard error — a builder gap, not a data problem.
    pub fn webhook_payloads(&self, front_end_url: &str, store: &Store) -> (r: Result<
        Vec<Payload>,
        DatabaseError,
    >)
        requires
            store.wf(),
        ensures
            r is Ok <==> webhook_ready(*self, *store),
            r matches Ok(ps) ==> payloads_ok(*self, front_end_url@, *store, ps@),
            r matches Err(e) ==> (e.code == ErrorCode::BusinessProcessError || e.code
                == ErrorCode::QueryError || e.code == ErrorCode::NoResults || e.code
                == ErrorCode::MultipleResultsWhenOneExpected),
            r matches Err(e) ==> (e.code == ErrorCode::BusinessProcessError <==> (self.main_id
                is None || !builder_registered(self.event_type))),
            self.main_id is None ==> (r matches Err(e) && e.is_text(
                ErrorCode::BusinessProcessError,
                "Domain event id not present for webhook"@,
            )),
            (self.main_id is Some && !builder_registered(self.event_type)) ==> (r matches Err(e)
                && e.is_text(
                ErrorCode::BusinessProcessError,
                "Domain event type not supported"@,
            )),
    {
        let main_id = match self.main_id {
            Some(v) => v,
            None => {
                return Err(
                    DatabaseError::with_text(
                        ErrorCode::BusinessProcessError,
                        "Domain event id not present for webhook",
                    ),
                );
            },
        };
        match self.event_type {
            crate::enums::DomainEventTypes::UserCreated => {
                let p = match build_user_created(self, store) {
                    Ok(p) => p,
                    Err(e) => {
                        return Err(e);
                    },
                };
                let mut result: Vec<Payload> = Vec::new();
                result.push(p);
                Ok(result)
            },
            crate::enums::DomainEventTypes::TemporaryUserCreated => {
                let p = match build_temporary_user_created(self, store) {
                    Ok(p) => p,
                    Err(e) => {
                        return Err(e);
                    },
                };
                let mut result: Vec<Payload> = Vec::new();
                result.push(p);
                Ok(result)
            },
            crate::enums::DomainEventTypes::PushNotificationTokenCreated => {
                let mut result: Vec<Payload> = Vec::new();
                match build_push_token(self, store) {
                    Some(p) => {
                        result.push(p);
                    },
                    None => {},
                }
                Ok(result)
            },
            crate::enums::DomainEventTypes::OrderCompleted => {
                let p = match build_order_payload(self, "purchase_ticket", store) {
                    Ok(p) => p,
                    Err(e) => {
                        return Err(e);
                    },
                };
                let mut result: Vec<Payload> = Vec::new();
                result.push(p);
                Ok(result)
            },
            crate::enums::DomainEventTypes::OrderRefund => {
                let p = match build_order_payload(self, "refund_completed", store) {
                    Ok(p) => p,
                    Err(e) => {
                        return Err(e);
                    },
                };
                let mut result: Vec<Payload> = Vec::new();
                result.push(p);
                Ok(result)
            },
            crate::enums::DomainEventTypes::OrderResendConfirmationTriggered => {
                let has_refunds = order_items_have_refunds(main_id, store);
                let wtype = if has_refunds {
                    "refund_completed"
                } else {
                    "purchase_ticket"
                };
                let p = match build_order_payload(self, wtype, store) {
                    Ok(p) => p,
                    Err(e) => {
                        return Err(e);
                    },
                };
                let mut result: Vec<Payload> = Vec::new();
                result.push(p);
                Ok(result)
            },
            crate::enums::DomainEventTypes::TransferTicketStarted
            | crate::enums::DomainEventTypes::TransferTicketCancelled
            | crate::enums::DomainEventTypes::TransferTicketCompleted => {
                let transfer = match crate::transfers::Transfer::find(main_id, store) {
                    Ok(t) => t,
                    Err(_) => {
                        // historic gap: skip the event instead of
                        // failing the whole batch
                        let result: Vec<Payload> = Vec::new();
                        return Ok(result);
                    },
                };
                let recipient = match build_recipient_payload(self, &transfer, front_end_url, store) {
                    Ok(p) => p,
                    Err(e) => {
                        proof {
                            crate::store::lemma_transfer_unique(*store, transfer);
                        }
                        return Err(e);
                    },
                };
                let transferer = match build_transferer_payload(self, &transfer, store) {
                    Ok(p) => p,
                    Err(e) => {
                        proof {
                            crate::store::lemma_transfer_unique(*store, transfer);
                        }
                        return Err(e);
                    },
                };
                let mut result: Vec<Payload> = Vec::new();
                result.push(recipient);
                result.push(transferer);
                proof {
                    crate::store::lemma_transfer_unique(*store, transfer);
                }
                Ok(result)
            },
            _ => {
                Err(
                    DatabaseError::with_text(
                        ErrorCode::BusinessProcessError,
                        "Domain event type not supported",
                    ),
                )
            },
        }
    }
}

/// Whether any item of the order has a refunded portion.
fn order_items_have_refunds(order_id: u64, store: &Store) -> (r: bool)
    ensures
        r == order_has_refunds(*store, order_id),
{
    let mut i: usize = 0;
    while i < store.order_items.len()
        invariant
            i <= store.order_items@.len(),
            forall|j: int|
                0 <= j < i ==> !((#[trigger] store.order_items@[j]).order_id == order_id
                    && store.order_items@[j].refunded_quantity > 0),
        decreases store.order_items@.len() - i,
    {
        let it = &store.order_items[i];
        if it.order_id == order_id && it.refunded_quantity > 0 {
            return true;
        }
        i = i + 1;
    }
    false
}


/// Two stores that differ only in claim locks agree on every entity
/// table, so they agree on payload correctness. Stated once, for the
/// dispatcher, whose claim locks change while it builds payloads.
pub open spec fn same_tables(s1: Store, s2: Store) -> bool {
    &&& s2.users@ == s1.users@
    &&& s2.temporary_users@ == s1.temporary_users@
    &&& s2.push_tokens@ == s1.push_tokens@
    &&& s2.organizations@ == s1.organizations@
    &&& s2.venues@ == s1.venues@
    &&& s2.show_events@ == s1.show_events@
    &&& s2.ticket_types@ == s1.ticket_types@
    &&& s2.ticket_instances@ == s1.ticket_instances@
    &&& s2.wallets@ == s1.wallets@
    &&& s2.orders@ == s1.orders@
    &&& s2.order_items@ == s1.order_items@
    &&& s2.transfers@ == s1.transfers@
    &&& s2.transfer_tickets@ == s1.transfer_tickets@
}

proof fn congr_item_resolves(s1: Store, s2: Store, it: crate::orders::OrderItem, e: ShowEvent)
    requires
        same_tables(s1, s2),
        item_resolves_to(s1, it, e),
    ensures
        item_resolves_to(s2, it, e),
{
    let (a, b) = choose|a: int, b: int|
        0 <= a < s1.ticket_types@.len() && 0 <= b < s1.show_events@.len() && (
        #[trigger] s1.ticket_types@[a]).id == it.ticket_type_id->0 && (
        #[trigger] s1.show_events@[b]).id == s1.ticket_types@[a].event_id && s1.show_events@[b]
            == e;
    assert(s2.ticket_types@[a] == s1.ticket_types@[a]);
    assert(s2.show_events@[b] == s1.show_events@[b]);
}

proof fn congr_event_metadata(s1: Store, s2: Store, p: Payload, e: ShowEvent)
    requires
        same_tables(s1, s2),
        event_metadata(p, e, s1),
    ensures
        event_metadata(p, e, s2),
{
    match e.venue_id {
        Some(vid) => {
            assert forall|v: crate::store::Venue|
                s2.venues@.contains(v) && v.id == vid implies has_text(
                p,
                "venue_name"@,
                v.name@,
            ) by {
                assert(s1.venues@.contains(v));
            }
        },
        None => {},
    }
}

proof fn congr_ticket_type_value(s1: Store, s2: Store, it: crate::orders::OrderItem, v: Value)
    requires
        same_tables(s1, s2),
        ticket_type_value_ok(s1, it, v),
    ensures
        ticket_type_value_ok(s2, it, v),
{
    match it.ticket_type_id {
        Some(ttid) => {
            assert forall|tt: crate::store::TicketType|
                s2.ticket_types@.contains(tt) && tt.id == ttid implies (match v {
                Value::VText(sx) => sx@ == tt.name@,
                _ => false,
            }) by {
                assert(s1.ticket_types@.contains(tt));
            }
            if !has_ticket_type(s2, ttid) {
                assert(!has_ticket_type(s1, ttid)) by {
                    if has_ticket_type(s1, ttid) {
                        let w = choose|w: int|
                            0 <= w < s1.ticket_types@.len() && (#[trigger] s1.ticket_types@[w]).id
                                == ttid;
                        assert(s2.ticket_types@[w].id == ttid);
                    }
                }
            }
        },
        None => {},
    }
}

pub(crate) proof fn congr_order_show_of(s1: Store, s2: Store, oid: u64, e: ShowEvent)
    requires
        same_tables(s1, s2),
        order_show_of(s2, oid, e),
    ensures
        order_show_of(s1, oid, e),
{
    let w = choose|w: int|
        0 <= w < s2.order_items@.len() && (#[trigger] s2.order_items@[w]).order_id == oid
            && item_resolves_to(s2, s2.order_items@[w], e);
    assert(s1.order_items@[w] == s2.order_items@[w]);
    congr_item_resolves(s2, s1, s2.order_items@[w], e);
}

pub(crate) proof fn congr_transfer_show_of(s1: Store, s2: Store, tid: u64, e: ShowEvent)
    requires
        same_tables(s1, s2),
        transfer_show_of(s2, tid, e),
    ensures
        transfer_show_of(s1, tid, e),
{
    let w = choose|w: int|
        0 <= w < s2.transfer_tickets@.len() && (#[trigger] s2.transfer_tickets@[w]).transfer_id
            == tid && ticket_resolves_to(s2, s2.transfer_tickets@[w].ticket_instance_id, e);
    let (k, b) = choose|k: int, b: int|
        0 <= k < s2.ticket_instances@.len() && 0 <= b < s2.show_events@.len() && (
        #[trigger] s2.ticket_instances@[k]).id == s2.transfer_tickets@[w].ticket_instance_id && (
        #[trigger] s2.show_events@[b]).id == s2.ticket_instances@[k].event_id && s2.show_events@[b]
            == e;
    assert(s1.transfer_tickets@[w] == s2.transfer_tickets@[w]);
    assert(s1.ticket_instances@[k] == s2.ticket_instances@[k]);
    assert(s1.show_events@[b] == s2.show_events@[b]);
    assert(ticket_resolves_to(s1, s1.transfer_tickets@[w].ticket_instance_id, e));
}

/// Payload correctness never reads the claim locks.
pub proof fn lemma_payloads_ok_same_tables(
    ev: DomainEvent,
    url: Seq<char>,
    s1: Store,
    s2: Store,
    ps: Seq<Payload>,
)
    requires
        same_tables(s1, s2),
        payloads_ok(ev, url, s1, ps),
    ensures
        payloads_ok(ev, url, s2, ps),
{
    match ev.event_type {
        crate::enums::DomainEventTypes::UserCreated => {
            assert forall|u: crate::store::User|
                s2.users@.contains(u) && Some(u.id) == ev.main_id implies has_int(
                ps[0],
                "user_id"@,
                u.id as int,
            ) && has_opt_text(ps[0], "email"@, opt_view(u.email)) && has_opt_text(
                ps[0],
                "phone"@,
                opt_view(u.phone),
            ) by {
                assert(s1.users@.contains(u));
            }
        },
        crate::enums::DomainEventTypes::TemporaryUserCreated => {
            assert forall|u: crate::store::TemporaryUser|
                s2.temporary_users@.contains(u) && Some(u.id) == ev.main_id implies has_int(
                ps[0],
                "user_id"@,
                u.id as int,
            ) && has_opt_text(ps[0], "email"@, opt_view(u.email)) && has_opt_text(
                ps[0],
                "phone"@,
                opt_view(u.phone),
            ) by {
                assert(s1.temporary_users@.contains(u));
            }
        },
        crate::enums::DomainEventTypes::PushNotificationTokenCreated => {
            assert(crate::store::has_push_token(s2, ev.main_id->0) == crate::store::has_push_token(
                s1,
                ev.main_id->0,
            )) by {
                if crate::store::has_push_token(s1, ev.main_id->0) {
                    let w = choose|w: int|
                        0 <= w < s1.push_tokens@.len() && (#[trigger] s1.push_tokens@[w]).id
                            == ev.main_id->0;
                    assert(s2.push_tokens@[w].id == ev.main_id->0);
                }
                if crate::store::has_push_token(s2, ev.main_id->0) {
                    let w = choose|w: int|
                        0 <= w < s2.push_tokens@.len() && (#[trigger] s2.push_tokens@[w]).id
                            == ev.main_id->0;
                    assert(s1.push_tokens@[w].id == ev.main_id->0);
                }
            }
            if crate::store::has_push_token(s1, ev.main_id->0) {
                assert forall|t: crate::store::PushNotificationToken|
                    s2.push_tokens@.contains(t) && Some(t.id) == ev.main_id implies has_int(
                    ps[0],
                    "user_id"@,
                    t.user_id as int,
                ) && has_text(ps[0], "token_source"@, t.token_source@) && has_text(
                    ps[0],
                    "token"@,
                    t.token@,
                ) && has_int(
                    ps[0],
                    "last_used"@,
                    t.last_notification_at.unwrap_or(t.created_at) as int,
                ) by {
                    assert(s1.push_tokens@.contains(t));
                }
            }
        },
        crate::enums::DomainEventTypes::OrderCompleted
        | crate::enums::DomainEventTypes::OrderRefund
        | crate::enums::DomainEventTypes::OrderResendConfirmationTriggered => {
            assert(order_has_refunds(s2, ev.main_id->0) == order_has_refunds(s1, ev.main_id->0))
                by {
                if order_has_refunds(s1, ev.main_id->0) {
                    let w = choose|w: int|
                        0 <= w < s1.order_items@.len() && (#[trigger] s1.order_items@[w]).order_id
                            == ev.main_id->0 && s1.order_items@[w].refunded_quantity > 0;
                    assert(s2.order_items@[w] == s1.order_items@[w]);
                }
                if order_has_refunds(s2, ev.main_id->0) {
                    let w = choose|w: int|
                        0 <= w < s2.order_items@.len() && (#[trigger] s2.order_items@[w]).order_id
                            == ev.main_id->0 && s2.order_items@[w].refunded_quantity > 0;
                    assert(s1.order_items@[w] == s2.order_items@[w]);
                }
            }
            assert(order_webhook_type(ev, s2) == order_webhook_type(ev, s1));
            assert forall|o: crate::orders::Order|
                s2.orders@.contains(o) && Some(o.id) == ev.main_id implies ({
                let order_items_here = s2.order_items@.filter(
                    crate::orders::item_of_order(o.id),
                );
                let totals_here = order_totals(order_items_here);
                &&& (forall|e: ShowEvent|
                    #[trigger] order_show_of(s2, o.id, e) ==> event_metadata(ps[0], e, s2))
                &&& has_text(ps[0], "order_number"@, crate::strutil::dec_digits(o.id as nat))
                &&& (forall|u: crate::store::User|
                    s2.users@.contains(u) && u.id == o.user_id ==> has_opt_text(
                        ps[0],
                        "customer_email"@,
                        opt_view(u.email),
                    ) && has_opt_text(ps[0], "customer_first_name"@, opt_view(u.first_name))
                        && has_opt_text(ps[0], "customer_last_name"@, opt_view(u.last_name)))
                &&& (match ps[0].spec_get("items"@) {
                    Some(Value::VArr(vs)) => vs@.len() == order_items_here.len() && forall|idx: int|
                        0 <= idx < order_items_here.len() ==> is_item_record(
                            #[trigger] vs@[idx],
                            order_items_here[idx],
                            s2,
                        ),
                    _ => false,
                })
                &&& has_int(ps[0], "ticket_count"@, totals_here.ticket_count)
                &&& has_int(ps[0], "subtotal"@, totals_here.subtotal)
                &&& has_int(ps[0], "refunded_subtotal"@, totals_here.refunded_subtotal)
                &&& has_int(ps[0], "fees_total"@, totals_here.fees_total)
                &&& has_int(ps[0], "refunded_fees_total"@, totals_here.refunded_fees_total)
                &&& has_int(ps[0], "discount_total"@, totals_here.discount_total)
                &&& has_int(ps[0], "refunded_discount_total"@, totals_here.refunded_discount_total)
                &&& has_int(ps[0], "user_id"@, o.on_behalf_of_user_id.unwrap_or(o.user_id) as int)
            }) by {
                assert(s1.orders@.contains(o));
                assert(s2.order_items@.filter(crate::orders::item_of_order(o.id))
                    == s1.order_items@.filter(crate::orders::item_of_order(o.id)));
                assert forall|e: ShowEvent| #[trigger] order_show_of(s2, o.id, e) implies
                    event_metadata(ps[0], e, s2) by {
                    congr_order_show_of(s1, s2, o.id, e);
                    congr_event_metadata(s1, s2, ps[0], e);
                }
                assert forall|u: crate::store::User|
                    s2.users@.contains(u) && u.id == o.user_id implies has_opt_text(
                    ps[0],
                    "customer_email"@,
                    opt_view(u.email),
                ) && has_opt_text(ps[0], "customer_first_name"@, opt_view(u.first_name))
                    && has_opt_text(ps[0], "customer_last_name"@, opt_view(u.last_name)) by {
                    assert(s1.users@.contains(u));
                }
                match ps[0].spec_get("items"@) {
                    Some(Value::VArr(vs)) => {
                        let items_here = s1.order_items@.filter(
                            crate::orders::item_of_order(o.id),
                        );
                        assert forall|idx: int|
                            0 <= idx < items_here.len() implies is_item_record(
                            #[trigger] vs@[idx],
                            items_here[idx],
                            s2,
                        ) by {
                            assert(is_item_record(vs@[idx], items_here[idx], s1));
                            match vs@[idx] {
                                Value::VObj(es) => {
                                    congr_ticket_type_value(s1, s2, items_here[idx], es@[0].1);
                                },
                                _ => {},
                            }
                        }
                    },
                    _ => {},
                }
            }
        },
        crate::enums::DomainEventTypes::TransferTicketStarted
        | crate::enums::DomainEventTypes::TransferTicketCancelled
        | crate::enums::DomainEventTypes::TransferTicketCompleted => {
            assert(crate::store::has_transfer(s2, ev.main_id->0) == crate::store::has_transfer(
                s1,
                ev.main_id->0,
            )) by {
                if crate::store::has_transfer(s1, ev.main_id->0) {
                    let w = choose|w: int|
                        0 <= w < s1.transfers@.len() && (#[trigger] s1.transfers@[w]).id
                            == ev.main_id->0;
                    assert(s2.transfers@[w].id == ev.main_id->0);
                }
                if crate::store::has_transfer(s2, ev.main_id->0) {
                    let w = choose|w: int|
                        0 <= w < s2.transfers@.len() && (#[trigger] s2.transfers@[w]).id
                            == ev.main_id->0;
                    assert(s1.transfers@[w].id == ev.main_id->0);
                }
            }
            if crate::store::has_transfer(s1, ev.main_id->0) {
                congr_recipient(s1, s2, ev, url, ps[0]);
                congr_transferer(s1, s2, ev, ps[1]);
            }
        },
        _ => {},
    }
}

proof fn congr_transfer_base(s1: Store, s2: Store, p: Payload, t: crate::transfers::Transfer, ev: DomainEvent)
    requires
        same_tables(s1, s2),
        transfer_base(p, t, ev, s1),
    ensures
        transfer_base(p, t, ev, s2),
{
    assert(s2.transfer_tickets@.filter(crate::transfers::ticket_of_transfer(t.id))
        == s1.transfer_tickets@.filter(crate::transfers::ticket_of_transfer(t.id)));
    assert forall|e: ShowEvent| #[trigger] transfer_show_of(s2, t.id, e) implies event_metadata(
        p,
        e,
        s2,
    ) by {
        congr_transfer_show_of(s1, s2, t.id, e);
        congr_event_metadata(s1, s2, p, e);
    }
}

proof fn congr_recipient(s1: Store, s2: Store, ev: DomainEvent, url: Seq<char>, p: Payload)
    requires
        same_tables(s1, s2),
        recipient_payload(p, ev, url, s1),
    ensures
        recipient_payload(p, ev, url, s2),
{
    assert forall|t: crate::transfers::Transfer|
        s2.transfers@.contains(t) && Some(t.id) == ev.main_id implies ({
        let count = crate::transfers::spec_ticket_count(s2, t.id);
        &&& transfer_base(p, t, ev, s2)
        &&& has_opt_id(
            p,
            "user_id"@,
            or_id(t.destination_temporary_user_id, t.destination_user_id),
        )
        &&& (forall|w: crate::store::Wallet|
            crate::transfers::default_wallet_of(s2, t.source_user_id, w) ==> has_text(
                p,
                "receive_tickets_url"@,
                crate::transfers::spec_receive_url(
                    url,
                    t.transfer_key,
                    t.source_user_id,
                    count,
                    crate::transfers::transfer_signature(t, count, w),
                ),
            ))
        &&& (forall|u: crate::store::User|
            s2.users@.contains(u) && u.id == t.source_user_id ==> has_opt_text(
                p,
                "transferer_first_name"@,
                opt_view(u.first_name),
            ) && has_opt_text(p, "transferer_email"@, opt_view(u.email)) && has_opt_text(
                p,
                "transferer_phone"@,
                opt_view(u.phone),
            ))
        &&& has_text(p, "webhook_event_type"@, recipient_webhook_type(ev.event_type, t))
        &&& (t.transfer_message_type == Some(crate::enums::TransferMessageType::Email)
            ==> has_opt_text(p, "recipient_email"@, opt_view(t.transfer_address)))
        &&& (t.transfer_message_type == Some(crate::enums::TransferMessageType::Phone)
            ==> has_opt_text(p, "recipient_phone"@, opt_view(t.transfer_address)))
    }) by {
        assert(s1.transfers@.contains(t));
        assert(s2.transfer_tickets@.filter(crate::transfers::ticket_of_transfer(t.id))
            == s1.transfer_tickets@.filter(crate::transfers::ticket_of_transfer(t.id)));
        congr_transfer_base(s1, s2, p, t, ev);
        assert forall|w: crate::store::Wallet|
            crate::transfers::default_wallet_of(s2, t.source_user_id, w) implies has_text(
            p,
            "receive_tickets_url"@,
            crate::transfers::spec_receive_url(
                url,
                t.transfer_key,
                t.source_user_id,
                crate::transfers::spec_ticket_count(s2, t.id),
                crate::transfers::transfer_signature(
                    t,
                    crate::transfers::spec_ticket_count(s2, t.id),
                    w,
                ),
            ),
        ) by {
            assert(crate::transfers::spec_ticket_count(s2, t.id)
                == crate::transfers::spec_ticket_count(s1, t.id));
            assert(s1.wallets@.contains(w));
            assert(crate::transfers::default_wallet_of(s1, t.source_user_id, w));
        }
        assert forall|u: crate::store::User|
            s2.users@.contains(u) && u.id == t.source_user_id implies has_opt_text(
            p,
            "transferer_first_name"@,
            opt_view(u.first_name),
        ) && has_opt_text(p, "transferer_email"@, opt_view(u.email)) && has_opt_text(
            p,
            "transferer_phone"@,
            opt_view(u.phone),
        ) by {
            assert(s1.users@.contains(u));
        }
    }
}

proof fn congr_transferer(s1: Store, s2: Store, ev: DomainEvent, p: Payload)
    requires
        same_tables(s1, s2),
        transferer_payload(p, ev, s1),
    ensures
        transferer_payload(p, ev, s2),
{
    assert forall|t: crate::transfers::Transfer|
        s2.transfers@.contains(t) && Some(t.id) == ev.main_id implies ({
        &&& transfer_base(p, t, ev, s2)
        &&& has_int(p, "user_id"@, t.source_user_id as int)
        &&& has_opt_id(
            p,
            "recipient_id"@,
            or_id(t.destination_temporary_user_id, t.destination_user_id),
        )
        &&& (match t.destination_user_id {
            Some(du) => forall|u: crate::store::User|
                s2.users@.contains(u) && u.id == du ==> has_opt_text(
                    p,
                    "recipient_first_name"@,
                    opt_view(u.first_name),
                ) && has_opt_text(
                    p,
                    "recipient_email"@,
                    or_opt(opt_view(u.email), email_fallback(t)),
                ) && has_opt_text(
                    p,
                    "recipient_phone"@,
                    or_opt(opt_view(u.phone), phone_fallback(t)),
                ),
            None => has_null(p, "recipient_first_name"@) && has_opt_text(
                p,
                "recipient_email"@,
                email_fallback(t),
            ) && has_opt_text(p, "recipient_phone"@, phone_fallback(t)),
        })
        &&& has_text(p, "webhook_event_type"@, transferer_webhook_type(ev.event_type, t))
        &&& (forall|u: crate::store::User|
            s2.users@.contains(u) && u.id == t.source_user_id ==> has_opt_text(
                p,
                "transferer_email"@,
                opt_view(u.email),
            ) && has_opt_text(p, "transferer_phone"@, opt_view(u.phone)))
    }) by {
        assert(s1.transfers@.contains(t));
        congr_transfer_base(s1, s2, p, t, ev);
        match t.destination_user_id {
            Some(du) => {
                assert forall|u: crate::store::User|
                    s2.users@.contains(u) && u.id == du implies has_opt_text(
                    p,
                    "recipient_first_name"@,
                    opt_view(u.first_name),
                ) && has_opt_text(
                    p,
                    "recipient_email"@,
                    or_opt(opt_view(u.email), email_fallback(t)),
                ) && has_opt_text(
                    p,
                    "recipient_phone"@,
                    or_opt(opt_view(u.phone), phone_fallback(t)),
                ) by {
                    assert(s1.users@.contains(u));
                }
            },
            None => {},
        }
        assert forall|u: crate::store::User|
            s2.users@.contains(u) && u.id == t.source_user_id implies has_opt_text(
            p,
            "transferer_email"@,
            opt_view(u.email),
        ) && has_opt_text(p, "transferer_phone"@, opt_view(u.phone)) by {
            assert(s1.users@.contains(u));
        }
    }
}


/// Readiness, like payload correctness, never reads the claim locks.
pub proof fn lemma_webhook_ready_same_tables(ev: DomainEvent, s1: Store, s2: Store)
    requires
        same_tables(s1, s2),
        webhook_ready(ev, s1),
    ensures
        webhook_ready(ev, s2),
{
    match ev.main_id {
        None => {},
        Some(id) => {
            match ev.event_type {
                crate::enums::DomainEventTypes::UserCreated => {
                    let w = choose|w: int|
                        0 <= w < s1.users@.len() && (#[trigger] s1.users@[w]).id == id;
                    assert(s2.users@[w].id == id);
                },
                crate::enums::DomainEventTypes::TemporaryUserCreated => {
                    let w = choose|w: int|
                        0 <= w < s1.temporary_users@.len() && (
                        #[trigger] s1.temporary_users@[w]).id == id;
                    assert(s2.temporary_users@[w].id == id);
                },
                crate::enums::DomainEventTypes::PushNotificationTokenCreated => {},
                crate::enums::DomainEventTypes::OrderCompleted
                | crate::enums::DomainEventTypes::OrderRefund
                | crate::enums::DomainEventTypes::OrderResendConfirmationTriggered => {
                    let w = choose|w: int|
                        0 <= w < s1.orders@.len() && (#[trigger] s1.orders@[w]).id == id;
                    assert(s2.orders@[w].id == id);
                    assert forall|o: crate::orders::Order|
                        s2.orders@.contains(o) && o.id == id implies has_user(
                        s2,
                        o.user_id,
                    ) by {
                        assert(s1.orders@.contains(o));
                        let u = choose|u: int|
                            0 <= u < s1.users@.len() && (#[trigger] s1.users@[u]).id == o.user_id;
                        assert(s2.users@[u].id == o.user_id);
                    }
                    assert forall|e1: ShowEvent, e2: ShowEvent|
                        #[trigger] order_show_of(s2, id, e1) && #[trigger] order_show_of(
                            s2,
                            id,
                            e2,
                        ) implies e1 == e2 by {
                        congr_order_show_of(s1, s2, id, e1);
                        congr_order_show_of(s1, s2, id, e2);
                    }
                },
                crate::enums::DomainEventTypes::TransferTicketStarted
                | crate::enums::DomainEventTypes::TransferTicketCancelled
                | crate::enums::DomainEventTypes::TransferTicketCompleted => {
                    if crate::store::has_transfer(s2, id) {
                        assert(crate::store::has_transfer(s1, id)) by {
                            let w = choose|w: int|
                                0 <= w < s2.transfers@.len() && (#[trigger] s2.transfers@[w]).id
                                    == id;
                            assert(s1.transfers@[w].id == id);
                        }
                        assert forall|t: crate::transfers::Transfer|
                            s2.transfers@.contains(t) && t.id == id implies has_user(
                            s2,
                            t.source_user_id,
                        ) && crate::store::has_default_wallet(s2, t.source_user_id) && (match t.destination_user_id {
                            Some(du) => has_user(s2, du),
                            None => true,
                        }) && transfer_show_unambiguous(s2, t.id) by {
                            assert(s1.transfers@.contains(t));
                            let u = choose|u: int|
                                0 <= u < s1.users@.len() && (#[trigger] s1.users@[u]).id
                                    == t.source_user_id;
                            assert(s2.users@[u].id == t.source_user_id);
                            let wl = choose|wl: int|
                                0 <= wl < s1.wallets@.len() && (#[trigger] s1.wallets@[wl]).user_id
                                    == t.source_user_id && s1.wallets@[wl].is_default;
                            assert(s2.wallets@[wl].user_id == t.source_user_id
                                && s2.wallets@[wl].is_default);
                            match t.destination_user_id {
                                Some(du) => {
                                    let d = choose|d: int|
                                        0 <= d < s1.users@.len() && (#[trigger] s1.users@[d]).id
                                            == du;
                                    assert(s2.users@[d].id == du);
                                },
                                None => {},
                            }
                            assert forall|e1: ShowEvent, e2: ShowEvent|
                                #[trigger] transfer_show_of(s2, t.id, e1)
                                    && #[trigger] transfer_show_of(s2, t.id, e2) implies e1
                                == e2 by {
                                congr_transfer_show_of(s1, s2, t.id, e1);
                                congr_transfer_show_of(s1, s2, t.id, e2);
                            }
                        }
                    }
                },
                _ => {},
            }
        },
    }
}

} // verus!

use bigneon_outbox::dispatcher::Dispatcher;
use bigneon_outbox::domain_events::DomainEvent;
use bigneon_outbox::enums::DomainEventTypes;
use bigneon_outbox::enums::Tables;
use bigneon_outbox::store::Store;
use bigneon_outbox::store::Organization;
use bigneon_outbox::store::ShowEvent;
use bigneon_outbox::store::User;
use bigneon_outbox::store::Venue;

const NOW: i64 = 1_600_000_000;

fn commit_user_event(store: &mut Store, user_id: u64) -> DomainEvent {
    DomainEvent::create(
        DomainEventTypes::UserCreated,
        "User was created".to_string(),
        Tables::Users,
        Some(user_id),
        Some(user_id),
        None,
    )
    .commit(NOW, store)
    .unwrap()
}

fn add_user(store: &mut Store, id: u64) {
    store
        .add_user(User {
            id,
            first_name: Some("Bob".to_string()),
            last_name: Some("Miller".to_string()),
            email: Some("bob@example.com".to_string()),
            phone: Some("555".to_string()),
        })
        .unwrap();
}

#[test]
fn append_assigns_strictly_increasing_sequences() {
    let mut store = Store::new();
    add_user(&mut store, 1);
    let e1 = commit_user_event(&mut store, 1);
    let e2 = commit_user_event(&mut store, 1);
    let e3 = commit_user_event(&mut store, 1);
    assert!(e1.seq < e2.seq);
    assert!(e2.seq < e3.seq);
    assert_eq!(store.domain_events.len(), 3);
    for i in 1..store.domain_events.len() {
        assert!(store.domain_events[i - 1].seq < store.domain_events[i].seq);
    }
}

#[test]
fn claim_batches_partition_unclaimed_rows() {
    let mut store = Store::new();
    add_user(&mut store, 1);
    commit_user_event(&mut store, 1);
    commit_user_event(&mut store, 1);
    commit_user_event(&mut store, 1);

    // first worker claims two rows; they stay locked
    let first = DomainEvent::find_after_seq(0, 2, &mut store);
    assert_eq!(first.len(), 2);

    // a concurrent worker skips the locked rows instead of waiting
    let second = DomainEvent::find_after_seq(0, 10, &mut store);
    assert_eq!(second.len(), 1);
    for a in &first {
        for b in &second {
            assert_ne!(a.seq, b.seq);
        }
    }

    // releasing makes the rows claimable again
    let seqs: Vec<u64> = first.iter().map(|e| e.seq).collect();
    DomainEvent::release_locks(&seqs, &mut store);
    let third = DomainEvent::find_after_seq(0, 10, &mut store);
    assert_eq!(third.len(), 2);
}

#[test]
fn claim_returns_rows_in_sequence_order() {
    let mut store = Store::new();
    add_user(&mut store, 1);
    commit_user_event(&mut store, 1);
    commit_user_event(&mut store, 1);
    let claimed = DomainEvent::find_after_seq(0, 10, &mut store);
    assert_eq!(claimed.len(), 2);
    assert!(claimed[0].seq < claimed[1].seq);
}

#[test]
fn find_by_ids_and_entity() {
    let mut store = Store::new();
    add_user(&mut store, 1);
    let e1 = commit_user_event(&mut store, 1);
    let _e2 = commit_user_event(&mut store, 1);
    let ids = vec![e1.id];
    let found = DomainEvent::find_by_ids(&ids, &store);
    assert_eq!(found.len(), 1);
    assert_eq!(found[0].id, e1.id);

    let by_entity = DomainEvent::find(
        Tables::Users,
        Some(1),
        Some(DomainEventTypes::UserCreated),
        &store,
    );
    assert_eq!(by_entity.len(), 2);
    assert_eq!(
        DomainEvent::find(Tables::Orders, Some(1), None, &store).len(),
        0
    );
}

#[test]
fn dispatcher_poll_advances_cursor_and_releases_claims() {
    let mut store = Store::new();
    add_user(&mut store, 1);
    commit_user_event(&mut store, 1);
    commit_user_event(&mut store, 1);

    let mut dispatcher = Dispatcher::new(0);
    let out = dispatcher
        .poll(10, "http://example.com", &mut store)
        .unwrap();
    assert_eq!(out.len(), 2);
    let payload = &out[0].1[0];
    let kind = payload.get("webhook_event_type").unwrap();
    assert_eq!(kind.as_text().unwrap(), "user_created");
    assert_eq!(dispatcher.last_processed_seq, out[1].0.seq);

    // nothing left past the cursor
    let again = dispatcher
        .poll(10, "http://example.com", &mut store)
        .unwrap();
    assert_eq!(again.len(), 0);

    // the claims were released: a fresh dispatcher sees everything
    let mut fresh = Dispatcher::new(0);
    let replay = fresh.poll(10, "http://example.com", &mut store).unwrap();
    assert_eq!(replay.len(), 2);
}

#[test]
fn dispatcher_failed_batch_leaves_cursor_and_releases_claims() {
    let mut store = Store::new();
    add_user(&mut store, 1);
    commit_user_event(&mut store, 1);
    // an unsupported event type fails the batch
    DomainEvent::create(
        DomainEventTypes::EventInterestCreated,
        "Interest".to_string(),
        Tables::Events,
        Some(30),
        Some(1),
        None,
    )
    .commit(NOW, &mut store)
    .unwrap();

    let mut dispatcher = Dispatcher::new(0);
    let result = dispatcher.poll(10, "http://example.com", &mut store);
    assert!(result.is_err());
    assert_eq!(dispatcher.last_processed_seq, 0);

    // the rows are claimable again after the failure
    let claimed = DomainEvent::find_after_seq(0, 10, &mut store);
    assert_eq!(claimed.len(), 2);
}

#[test]
fn post_processing_logs_interactions_at_commit() {
    let mut store = Store::new();
    add_user(&mut store, 1);
    store
        .add_organization(Organization {
            id: 10,
            name: "Org".to_string(),
        })
        .unwrap();
    store
        .add_venue(Venue {
            id: 20,
            name: "Venue".to_string(),
        })
        .unwrap();
    store
        .add_show_event(ShowEvent {
            id: 30,
            name: "NewEvent".to_string(),
            organization_id: 10,
            venue_id: Some(20),
            event_start: None,
            event_end: None,
        })
        .unwrap();
    assert_eq!(store.interactions.len(), 0);
    // the interaction logger runs synchronously inside commit
    let ev = DomainEvent::create(
        DomainEventTypes::EventInterestCreated,
        "Interest".to_string(),
        Tables::Events,
        Some(30),
        Some(1),
        None,
    )
    .commit(NOW, &mut store)
    .unwrap();
    assert_eq!(store.interactions.len(), 1);
    assert_eq!(store.interactions[0].organization_id, 10);
    assert_eq!(store.interactions[0].user_id, 1);
    assert_eq!(store.interactions[0].at, NOW);
    // the logger itself is idempotence-free: replaying the hook logs again
    ev.post_processing(NOW, &mut store);
    assert_eq!(store.interactions.len(), 2);
}

#[test]
fn backdated_commit_is_clamped_to_log_order() {
    let mut store = Store::new();
    add_user(&mut store, 1);
    let first = DomainEvent::create(
        DomainEventTypes::UserCreated,
        "User was created".to_string(),
        Tables::Users,
        Some(1),
        Some(1),
        None,
    )
    .commit(NOW, &mut store)
    .unwrap();
    // a commit requesting an earlier instant is clamped to the newest row
    let second = DomainEvent::create(
        DomainEventTypes::UserCreated,
        "User was created".to_string(),
        Tables::Users,
        Some(1),
        Some(1),
        None,
    )
    .commit(NOW - 500, &mut store)
    .unwrap();
    assert_eq!(first.created_at, NOW);
    assert_eq!(second.created_at, NOW);
    // so query results come back ordered by creation time
    let found = DomainEvent::find(Tables::Users, Some(1), None, &store);
    assert!(found[0].created_at <= found[1].created_at);
}

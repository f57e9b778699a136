use bigneon_outbox::domain_events::DomainEvent;
use bigneon_outbox::enums::DomainEventTypes;
use bigneon_outbox::enums::Tables;
use bigneon_outbox::enums::TransferStatus;
use bigneon_outbox::errors::DatabaseError;
use bigneon_outbox::errors::ErrorCode;
use bigneon_outbox::store::Store;
use bigneon_outbox::store::Organization;
use bigneon_outbox::store::ShowEvent;
use bigneon_outbox::store::TicketInstance;
use bigneon_outbox::store::User;
use bigneon_outbox::store::Venue;
use bigneon_outbox::transfers::Transfer;
use bigneon_outbox::transfers::TransferAuthorization;
use bigneon_outbox::transfers::TransferEditableAttributes;

const SECRET: &str = "000102030405060708090a0b0c0d0e0f101112131415161718191a1b1c1d1e1f";
const NOW: i64 = 1_600_000_000;

fn setup(store: &mut Store) {
    store
        .add_user(User {
            id: 1,
            first_name: Some("Bob".to_string()),
            last_name: Some("Miller".to_string()),
            email: Some("bob@example.com".to_string()),
            phone: None,
        })
        .unwrap();
    store
        .add_user(User {
            id: 2,
            first_name: Some("Ann".to_string()),
            last_name: Some("Smith".to_string()),
            email: Some("ann@example.com".to_string()),
            phone: None,
        })
        .unwrap();
    store.create_default_wallet(100, 1, SECRET).unwrap();
    store
        .add_organization(Organization {
            id: 10,
            name: "Org".to_string(),
        })
        .unwrap();
    store
        .add_venue(Venue {
            id: 20,
            name: "Venue".to_string(),
        })
        .unwrap();
    store
        .add_show_event(ShowEvent {
            id: 30,
            name: "NewEvent".to_string(),
            organization_id: 10,
            venue_id: Some(20),
            event_start: Some(NOW + 3600),
            event_end: Some(NOW + 7200),
        })
        .unwrap();
    store
        .add_ticket_instance(TicketInstance {
            id: 500,
            wallet_id: 100,
            event_id: 30,
        })
        .unwrap();
    store
        .add_ticket_instance(TicketInstance {
            id: 501,
            wallet_id: 100,
            event_id: 30,
        })
        .unwrap();
}

#[test]
fn receive_url() {
    let mut store = Store::new();
    setup(&mut store);
    let transfer = Transfer::create(1, 777, None, None, false)
        .commit(NOW, &mut store)
        .unwrap();
    transfer.add_transfer_ticket(500, &mut store).unwrap();

    assert_eq!(
        transfer
            .receive_url("http://example.com", &store)
            .unwrap(),
        format!(
            "http://example.com/tickets/transfers/receive?sender_user_id={}&transfer_key={}&num_tickets=1&signature={}",
            transfer.source_user_id,
            transfer.transfer_key,
            transfer.signature(&store).unwrap()
        )
    );
}

#[test]
fn into_authorization() {
    let mut store = Store::new();
    setup(&mut store);
    let transfer = Transfer::create(1, 778, None, None, false)
        .commit(NOW, &mut store)
        .unwrap();
    transfer.add_transfer_ticket(500, &mut store).unwrap();
    assert_eq!(
        TransferAuthorization {
            transfer_key: transfer.transfer_key,
            sender_user_id: transfer.source_user_id,
            num_tickets: 1,
            signature: transfer.signature(&store).unwrap(),
        },
        transfer.into_authorization(&store).unwrap()
    );
}

#[test]
fn transfer_ticket_count() {
    let mut store = Store::new();
    setup(&mut store);
    let transfer = Transfer::create(1, 779, None, None, false)
        .commit(NOW, &mut store)
        .unwrap();
    assert_eq!(transfer.transfer_ticket_count(&store), 0);

    transfer.add_transfer_ticket(500, &mut store).unwrap();
    assert_eq!(transfer.transfer_ticket_count(&store), 1);

    transfer.add_transfer_ticket(501, &mut store).unwrap();
    assert_eq!(transfer.transfer_ticket_count(&store), 2);
}

#[test]
fn signature() {
    let mut store = Store::new();
    setup(&mut store);
    let transfer = Transfer::create(1, 780, None, None, false)
        .commit(NOW, &mut store)
        .unwrap();
    transfer.add_transfer_ticket(500, &mut store).unwrap();
    transfer.add_transfer_ticket(501, &mut store).unwrap();

    let mut message: String = transfer.transfer_key.to_string();
    message.push_str(transfer.source_user_id.to_string().as_str());
    message.push_str(transfer.transfer_ticket_count(&store).to_string().as_str());
    let expected_signature = bigneon_outbox::signing::sign(&message, SECRET).unwrap();
    let found_signature = transfer.signature(&store).unwrap();
    assert_eq!(expected_signature, found_signature);

    let mut header: String = transfer.transfer_key.to_string();
    header.push_str(transfer.source_user_id.to_string().as_str());
    header.push_str(2.to_string().as_str());
    let public_key = bigneon_outbox::signing::derive_public_key(SECRET).unwrap();
    assert!(bigneon_outbox::signing::verify(
        &found_signature,
        &header,
        &public_key
    ));
}

#[test]
fn sender_name() {
    let mut store = Store::new();
    setup(&mut store);
    let user = store.find_user(1).unwrap();
    assert_eq!(Transfer::sender_name(user), "Bob M.".to_string());

    let nameless = User {
        id: 3,
        first_name: None,
        last_name: None,
        email: None,
        phone: None,
    };
    assert_eq!(Transfer::sender_name(&nameless), "another user".to_string());
}

#[test]
fn find() {
    let mut store = Store::new();
    setup(&mut store);
    let transfer = Transfer::create(1, 781, None, None, false)
        .commit(NOW, &mut store)
        .unwrap();

    assert_eq!(transfer, Transfer::find(transfer.id, &store).unwrap());
}

#[test]
fn find_by_transfer_key() {
    let mut store = Store::new();
    setup(&mut store);
    let transfer_key = 782;
    let transfer = Transfer::create(1, transfer_key, None, None, false)
        .commit(NOW, &mut store)
        .unwrap();
    transfer.add_transfer_ticket(500, &mut store).unwrap();

    let found_transfer = Transfer::find_by_transfer_key(transfer_key, &store).unwrap();
    assert_eq!(found_transfer, transfer);
}

#[test]
fn add_transfer_ticket() {
    let mut store = Store::new();
    setup(&mut store);
    let transfer = Transfer::create(1, 783, None, None, false)
        .commit(NOW, &mut store)
        .unwrap();
    let transfer_ticket = transfer.add_transfer_ticket(500, &mut store).unwrap();
    assert_eq!(transfer_ticket.transfer_id, transfer.id);
    assert_eq!(transfer_ticket.ticket_instance_id, 500);
}

#[test]
fn transfer_tickets() {
    let mut store = Store::new();
    setup(&mut store);
    let transfer = Transfer::create(1, 784, None, None, false)
        .commit(NOW, &mut store)
        .unwrap();
    let transfer_ticket = transfer.add_transfer_ticket(500, &mut store).unwrap();

    let transfer2 = Transfer::create(1, 785, None, None, false)
        .commit(NOW, &mut store)
        .unwrap();
    let transfer_ticket2 = transfer2.add_transfer_ticket(501, &mut store).unwrap();

    assert_eq!(vec![transfer_ticket], transfer.transfer_tickets(&store));
    assert_eq!(vec![transfer_ticket2], transfer2.transfer_tickets(&store));
}

#[test]
fn find_pending() {
    let mut store = Store::new();
    setup(&mut store);
    let transfer = Transfer::create(1, 786, None, None, false)
        .commit(NOW, &mut store)
        .unwrap();
    transfer.add_transfer_ticket(500, &mut store).unwrap();
    let pending_transfers = Transfer::find_pending(&store);
    assert_eq!(pending_transfers.len(), 1);
    assert_eq!(pending_transfers[0].id, transfer.id);

    // Complete transfer to remove from result set
    assert!(transfer.complete(2, None, NOW, &mut store).is_ok());
    assert_eq!(Transfer::find_pending(&store).len(), 0);

    // New transfer still pending
    let transfer2 = Transfer::create(1, 787, None, None, false)
        .commit(NOW, &mut store)
        .unwrap();
    transfer2.add_transfer_ticket(500, &mut store).unwrap();

    let pending_transfers = Transfer::find_pending(&store);
    assert_eq!(pending_transfers.len(), 1);
    assert_eq!(pending_transfers[0].id, transfer2.id);
}

#[test]
fn find_pending_by_ticket_instance_ids() {
    let mut store = Store::new();
    setup(&mut store);
    let transfer = Transfer::create(1, 788, None, None, false)
        .commit(NOW, &mut store)
        .unwrap();
    transfer.add_transfer_ticket(500, &mut store).unwrap();

    assert!(transfer.complete(2, None, NOW, &mut store).is_ok());
    let transfer2 = Transfer::create(1, 789, None, None, false)
        .commit(NOW, &mut store)
        .unwrap();
    transfer2.add_transfer_ticket(500, &mut store).unwrap();

    let ids = vec![500, 501];
    let pending_transfers = Transfer::find_pending_by_ticket_instance_ids(&ids, &store);
    assert_eq!(pending_transfers.len(), 1);
    assert_eq!(pending_transfers[0].id, transfer2.id);
}

#[test]
fn pending_ticket_cannot_join_second_transfer() {
    let mut store = Store::new();
    setup(&mut store);
    let transfer = Transfer::create(1, 790, None, None, false)
        .commit(NOW, &mut store)
        .unwrap();
    transfer.add_transfer_ticket(500, &mut store).unwrap();
    // re-adding the same pair is allowed
    assert!(transfer.add_transfer_ticket(500, &mut store).is_ok());

    let transfer2 = Transfer::create(1, 791, None, None, false)
        .commit(NOW, &mut store)
        .unwrap();
    let result = transfer2.add_transfer_ticket(500, &mut store);
    assert!(result.is_err());
    assert_eq!(
        result.unwrap_err().code,
        ErrorCode::BusinessProcessError
    );
}

#[test]
fn cancel() {
    let mut store = Store::new();
    setup(&mut store);
    let transfer = Transfer::create(1, 792, None, None, false)
        .commit(NOW, &mut store)
        .unwrap();
    transfer.add_transfer_ticket(500, &mut store).unwrap();

    let domain_events = DomainEvent::find(
        Tables::Transfers,
        Some(transfer.id),
        Some(DomainEventTypes::TransferTicketCancelled),
        &store,
    );
    assert_eq!(0, domain_events.len());

    let transfer = transfer.cancel(1, None, NOW, &mut store).unwrap();
    assert_eq!(transfer.status, TransferStatus::Cancelled);
    let domain_events = DomainEvent::find(
        Tables::Transfers,
        Some(transfer.id),
        Some(DomainEventTypes::TransferTicketCancelled),
        &store,
    );
    assert_eq!(1, domain_events.len());

    // Transfering again triggers error as status is no longer pending
    let result = transfer.cancel(1, None, NOW, &mut store);
    assert!(result.is_err());
    assert_eq!(
        result.unwrap_err(),
        DatabaseError::new(
            ErrorCode::UpdateError,
            Some("Transfer cannot be cancelled as it is no longer pending".to_string()),
        )
    );
}

#[test]
fn complete() {
    let mut store = Store::new();
    setup(&mut store);
    let transfer = Transfer::create(1, 793, None, None, false)
        .commit(NOW, &mut store)
        .unwrap();
    transfer.add_transfer_ticket(500, &mut store).unwrap();

    let domain_events = DomainEvent::find(
        Tables::Transfers,
        Some(transfer.id),
        Some(DomainEventTypes::TransferTicketCompleted),
        &store,
    );
    assert_eq!(0, domain_events.len());

    let transfer = transfer.complete(2, None, NOW, &mut store).unwrap();
    assert_eq!(transfer.status, TransferStatus::Completed);
    assert_eq!(transfer.destination_user_id, Some(2));
    let domain_events = DomainEvent::find(
        Tables::Transfers,
        Some(transfer.id),
        Some(DomainEventTypes::TransferTicketCompleted),
        &store,
    );
    assert_eq!(1, domain_events.len());

    // Transfering again triggers error as status is no longer pending
    let result = transfer.complete(2, None, NOW, &mut store);
    assert!(result.is_err());
    assert_eq!(
        result.unwrap_err(),
        DatabaseError::new(
            ErrorCode::UpdateError,
            Some("Transfer cannot be completed as it is no longer pending".to_string()),
        )
    );
}

#[test]
fn create_commit() {
    let mut store = Store::new();
    setup(&mut store);
    let transfer_key = 794;

    let transfer = Transfer::create(1, transfer_key, None, None, false)
        .commit(NOW, &mut store)
        .unwrap();
    transfer.add_transfer_ticket(500, &mut store).unwrap();
    assert_eq!(transfer.status, TransferStatus::Pending);
    assert_eq!(transfer.source_user_id, 1);
    assert_eq!(transfer.transfer_key, transfer_key);
}

#[test]
fn update() {
    let mut store = Store::new();
    setup(&mut store);
    let transfer = Transfer::create(1, 795, None, None, false)
        .commit(NOW, &mut store)
        .unwrap();
    transfer.add_transfer_ticket(500, &mut store).unwrap();

    let transfer = transfer
        .update(
            &TransferEditableAttributes {
                status: Some(TransferStatus::Cancelled),
                transfer_message_type: None,
                transfer_address: None,
            },
            &mut store,
        )
        .unwrap();
    assert_eq!(transfer.status, TransferStatus::Cancelled);
}

#[test]
fn events_have_not_ended() {
    let mut store = Store::new();
    setup(&mut store);
    let transfer = Transfer::create(1, 796, None, None, false)
        .commit(NOW, &mut store)
        .unwrap();
    transfer.add_transfer_ticket(500, &mut store).unwrap();
    assert!(transfer.events_have_not_ended(NOW, &mut store).unwrap());

    // a show that ended two days ago
    store
        .add_show_event(ShowEvent {
            id: 31,
            name: "PastEvent".to_string(),
            organization_id: 10,
            venue_id: Some(20),
            event_start: Some(NOW - 172_800),
            event_end: Some(NOW - 86_400),
        })
        .unwrap();
    store
        .add_ticket_instance(TicketInstance {
            id: 502,
            wallet_id: 100,
            event_id: 31,
        })
        .unwrap();
    let past_transfer = Transfer::create(1, 797, None, None, false)
        .commit(NOW, &mut store)
        .unwrap();
    past_transfer.add_transfer_ticket(502, &mut store).unwrap();

    assert!(!past_transfer.events_have_not_ended(NOW, &mut store).unwrap());
}

#[test]
fn duplicate_transfer_key_is_rejected() {
    let mut store = Store::new();
    setup(&mut store);
    Transfer::create(1, 798, None, None, false)
        .commit(NOW, &mut store)
        .unwrap();
    let err = Transfer::create(2, 798, None, None, false)
        .commit(NOW, &mut store)
        .unwrap_err();
    assert_eq!(err.code, ErrorCode::BusinessProcessError);
}

#[test]
fn update_keeps_lifecycle_one_way() {
    let mut store = Store::new();
    setup(&mut store);
    let transfer = Transfer::create(1, 799, None, None, false)
        .commit(NOW, &mut store)
        .unwrap();
    // a completion must go through complete, which records the recipient
    let err = transfer
        .update(
            &TransferEditableAttributes {
                status: Some(TransferStatus::Completed),
                transfer_message_type: None,
                transfer_address: None,
            },
            &mut store,
        )
        .unwrap_err();
    assert_eq!(err.code, ErrorCode::UpdateError);

    let cancelled = transfer
        .update(
            &TransferEditableAttributes {
                status: Some(TransferStatus::Cancelled),
                transfer_message_type: None,
                transfer_address: None,
            },
            &mut store,
        )
        .unwrap();
    assert_eq!(cancelled.status, TransferStatus::Cancelled);
    // no way back out of a terminal state
    let err = cancelled
        .update(
            &TransferEditableAttributes {
                status: Some(TransferStatus::Pending),
                transfer_message_type: None,
                transfer_address: None,
            },
            &mut store,
        )
        .unwrap_err();
    assert_eq!(err.code, ErrorCode::UpdateError);
}

#[test]
fn cancel_missing_transfer_is_a_query_error() {
    let mut store = Store::new();
    setup(&mut store);
    let committed = Transfer::create(1, 800, None, None, false)
        .commit(NOW, &mut store)
        .unwrap();
    // a value whose row id the store never issued
    let mut stray = committed.clone();
    stray.id = 9999;
    let err = stray.cancel(1, None, NOW, &mut store).unwrap_err();
    assert_eq!(err.code, ErrorCode::QueryError);
}

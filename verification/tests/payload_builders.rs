use bigneon_outbox::domain_events::DomainEvent;
use bigneon_outbox::enums::DomainEventTypes;
use bigneon_outbox::enums::OrderItemTypes;
use bigneon_outbox::enums::OrderTypes;
use bigneon_outbox::enums::Tables;
use bigneon_outbox::errors::ErrorCode;
use bigneon_outbox::orders::Order;
use bigneon_outbox::store::Organization;
use bigneon_outbox::store::PushNotificationToken;
use bigneon_outbox::store::ShowEvent;
use bigneon_outbox::store::Store;
use bigneon_outbox::store::TicketInstance;
use bigneon_outbox::store::TicketType;
use bigneon_outbox::store::User;
use bigneon_outbox::store::Venue;
use bigneon_outbox::transfers::Transfer;

const SECRET: &str = "000102030405060708090a0b0c0d0e0f101112131415161718191a1b1c1d1e1f";
const NOW: i64 = 1_600_000_000;
const URL: &str = "http://example.com";

fn setup(store: &mut Store) {
    store
        .add_user(User {
            id: 1,
            first_name: Some("Bob".to_string()),
            last_name: Some("Miller".to_string()),
            email: Some("bob@example.com".to_string()),
            phone: Some("555-0100".to_string()),
        })
        .unwrap();
    store
        .add_user(User {
            id: 2,
            first_name: Some("Ann".to_string()),
            last_name: Some("Smith".to_string()),
            email: Some("ann@example.com".to_string()),
            phone: None,
        })
        .unwrap();
    store.create_default_wallet(100, 1, SECRET).unwrap();
    store
        .add_organization(Organization {
            id: 10,
            name: "Org".to_string(),
        })
        .unwrap();
    store
        .add_venue(Venue {
            id: 20,
            name: "The Hall".to_string(),
        })
        .unwrap();
    store
        .add_show_event(ShowEvent {
            id: 30,
            name: "NewEvent".to_string(),
            organization_id: 10,
            venue_id: Some(20),
            event_start: Some(NOW + 3600),
            event_end: Some(NOW + 7200),
        })
        .unwrap();
    store
        .add_ticket_type(TicketType {
            id: 40,
            event_id: 30,
            name: "General".to_string(),
        })
        .unwrap();
    store
        .add_ticket_instance(TicketInstance {
            id: 500,
            wallet_id: 100,
            event_id: 30,
        })
        .unwrap();
}

#[test]
fn order_completed_payload_totals() {
    let mut store = Store::new();
    setup(&mut store);
    let order = Order::create(1, OrderTypes::Cart)
        .commit(NOW, &mut store)
        .unwrap();
    store
        .add_order_item(
            order.id,
            OrderItemTypes::Tickets,
            1000,
            2,
            0,
            Some(40),
            None,
            None,
        )
        .unwrap();
    store
        .add_order_item(
            order.id,
            OrderItemTypes::Tickets,
            500,
            1,
            1,
            Some(40),
            None,
            None,
        )
        .unwrap();
    let ev = DomainEvent::create(
        DomainEventTypes::OrderCompleted,
        "Order completed".to_string(),
        Tables::Orders,
        Some(order.id),
        Some(1),
        None,
    )
    .commit(NOW, &mut store)
    .unwrap();

    let payloads = ev.webhook_payloads(URL, &store).unwrap();
    assert_eq!(payloads.len(), 1);
    let p = &payloads[0];
    assert_eq!(p.get("subtotal").unwrap().as_int().unwrap(), 2500);
    assert_eq!(p.get("refunded_subtotal").unwrap().as_int().unwrap(), 500);
    assert_eq!(p.get("ticket_count").unwrap().as_int().unwrap(), 2);
    assert_eq!(p.get("fees_total").unwrap().as_int().unwrap(), 0);
    assert_eq!(p.get("discount_total").unwrap().as_int().unwrap(), 0);
    assert_eq!(
        p.get("webhook_event_type").unwrap().as_text().unwrap(),
        "purchase_ticket"
    );
    assert_eq!(
        p.get("customer_email").unwrap().as_text().unwrap(),
        "bob@example.com"
    );
    assert_eq!(p.get("event_name").unwrap().as_text().unwrap(), "NewEvent");
    assert_eq!(p.get("venue_name").unwrap().as_text().unwrap(), "The Hall");
    assert_eq!(p.get("user_id").unwrap().as_int().unwrap(), 1);
    assert_eq!(p.get("timestamp").unwrap().as_int().unwrap(), NOW as i128);
    let items = p.get("items").unwrap().as_arr().unwrap();
    assert_eq!(items.len(), 2);
    let first = items[0].as_obj().unwrap();
    assert_eq!(first[0].0, "ticket_type");
    assert_eq!(first[0].1.as_text().unwrap(), "General");
    assert_eq!(first[1].1.as_int().unwrap(), 1000);
    assert_eq!(first[3].1.as_int().unwrap(), 2000);
}

#[test]
fn refund_overrides_webhook_type() {
    let mut store = Store::new();
    setup(&mut store);
    let order = Order::create(1, OrderTypes::Cart)
        .commit(NOW, &mut store)
        .unwrap();
    store
        .add_order_item(
            order.id,
            OrderItemTypes::Tickets,
            1000,
            2,
            1,
            Some(40),
            None,
            None,
        )
        .unwrap();
    let refund = DomainEvent::create(
        DomainEventTypes::OrderRefund,
        "Order refunded".to_string(),
        Tables::Orders,
        Some(order.id),
        Some(1),
        None,
    )
    .commit(NOW, &mut store)
    .unwrap();
    let p = &refund.webhook_payloads(URL, &store).unwrap()[0];
    assert_eq!(
        p.get("webhook_event_type").unwrap().as_text().unwrap(),
        "refund_completed"
    );

    // a resent confirmation also reports the refund once one exists
    let resend = DomainEvent::create(
        DomainEventTypes::OrderResendConfirmationTriggered,
        "Confirmation resent".to_string(),
        Tables::Orders,
        Some(order.id),
        Some(1),
        None,
    )
    .commit(NOW, &mut store)
    .unwrap();
    let p = &resend.webhook_payloads(URL, &store).unwrap()[0];
    assert_eq!(
        p.get("webhook_event_type").unwrap().as_text().unwrap(),
        "refund_completed"
    );
}

#[test]
fn recipient_cancellation_webhook_types() {
    let mut store = Store::new();
    setup(&mut store);
    let transfer = Transfer::create(1, 900, None, None, false)
        .commit(NOW, &mut store)
        .unwrap();
    transfer.add_transfer_ticket(500, &mut store).unwrap();
    // cancelled by the recipient, not the sender
    transfer.cancel(2, None, NOW, &mut store).unwrap();
    let ev = DomainEvent::find(
        Tables::Transfers,
        Some(transfer.id),
        Some(DomainEventTypes::TransferTicketCancelled),
        &store,
    )
    .remove(0);
    let payloads = ev.webhook_payloads(URL, &store).unwrap();
    assert_eq!(payloads.len(), 2);
    assert_eq!(
        payloads[0]
            .get("webhook_event_type")
            .unwrap()
            .as_text()
            .unwrap(),
        "decline_pending_transfer"
    );
    assert_eq!(
        payloads[1]
            .get("webhook_event_type")
            .unwrap()
            .as_text()
            .unwrap(),
        "initiated_transfer_declined"
    );
}

#[test]
fn sender_cancellation_webhook_types() {
    let mut store = Store::new();
    setup(&mut store);
    let transfer = Transfer::create(1, 901, None, None, false)
        .commit(NOW, &mut store)
        .unwrap();
    transfer.add_transfer_ticket(500, &mut store).unwrap();
    transfer.cancel(1, None, NOW, &mut store).unwrap();
    let ev = DomainEvent::find(
        Tables::Transfers,
        Some(transfer.id),
        Some(DomainEventTypes::TransferTicketCancelled),
        &store,
    )
    .remove(0);
    let payloads = ev.webhook_payloads(URL, &store).unwrap();
    assert_eq!(
        payloads[0]
            .get("webhook_event_type")
            .unwrap()
            .as_text()
            .unwrap(),
        "cancel_pending_transfer"
    );
    assert_eq!(
        payloads[1]
            .get("webhook_event_type")
            .unwrap()
            .as_text()
            .unwrap(),
        "cancel_pending_transfer"
    );
}

#[test]
fn transfer_started_payload_carries_receive_url() {
    let mut store = Store::new();
    setup(&mut store);
    let transfer = Transfer::create(1, 902, None, None, false)
        .commit(NOW, &mut store)
        .unwrap();
    transfer.add_transfer_ticket(500, &mut store).unwrap();
    let ev = DomainEvent::find(
        Tables::Transfers,
        Some(transfer.id),
        Some(DomainEventTypes::TransferTicketStarted),
        &store,
    )
    .remove(0);
    let payloads = ev.webhook_payloads(URL, &store).unwrap();
    let recipient = &payloads[0];
    assert_eq!(
        recipient
            .get("receive_tickets_url")
            .unwrap()
            .as_text()
            .unwrap()
            .clone(),
        transfer.receive_url(URL, &store).unwrap()
    );
    assert_eq!(
        recipient
            .get("transferer_first_name")
            .unwrap()
            .as_text()
            .unwrap(),
        "Bob"
    );
    assert_eq!(
        recipient
            .get("number_of_tickets_transferred")
            .unwrap()
            .as_int()
            .unwrap(),
        1
    );
    assert_eq!(
        recipient.get("direct_transfer").unwrap().as_bool().unwrap(),
        false
    );
    let transferer = &payloads[1];
    assert_eq!(transferer.get("user_id").unwrap().as_int().unwrap(), 1);
    assert!(transferer.get("recipient_id").unwrap().is_null());
}

#[test]
fn user_created_payload_fields() {
    let mut store = Store::new();
    setup(&mut store);
    let ev = DomainEvent::create(
        DomainEventTypes::UserCreated,
        "User created".to_string(),
        Tables::Users,
        Some(1),
        Some(1),
        None,
    )
    .commit(NOW, &mut store)
    .unwrap();
    let p = &ev.webhook_payloads(URL, &store).unwrap()[0];
    assert_eq!(
        p.get("webhook_event_type").unwrap().as_text().unwrap(),
        "user_created"
    );
    assert_eq!(p.get("user_id").unwrap().as_int().unwrap(), 1);
    assert_eq!(p.get("email").unwrap().as_text().unwrap(), "bob@example.com");
    assert_eq!(p.get("phone").unwrap().as_text().unwrap(), "555-0100");
}

#[test]
fn push_token_deleted_is_skipped() {
    let mut store = Store::new();
    setup(&mut store);
    store
        .add_push_token(PushNotificationToken {
            id: 700,
            user_id: 1,
            token_source: "apns".to_string(),
            token: "token-value-1".to_string(),
            last_notification_at: None,
            created_at: NOW,
        })
        .unwrap();
    let ev = DomainEvent::create(
        DomainEventTypes::PushNotificationTokenCreated,
        "Token added".to_string(),
        Tables::PushNotificationTokens,
        Some(700),
        Some(1),
        None,
    )
    .commit(NOW, &mut store)
    .unwrap();
    let payloads = ev.webhook_payloads(URL, &store).unwrap();
    assert_eq!(payloads.len(), 1);
    assert_eq!(
        payloads[0]
            .get("webhook_event_type")
            .unwrap()
            .as_text()
            .unwrap(),
        "user_device_tokens_added"
    );
    assert_eq!(
        payloads[0].get("last_used").unwrap().as_int().unwrap(),
        NOW as i128
    );

    // deleting the token between creation and dispatch skips the event
    store.remove_push_token(700).unwrap();
    let payloads = ev.webhook_payloads(URL, &store).unwrap();
    assert_eq!(payloads.len(), 0);
}

#[test]
fn unsupported_event_type_is_a_hard_error() {
    let mut store = Store::new();
    setup(&mut store);
    let ev = DomainEvent::create(
        DomainEventTypes::EventInterestCreated,
        "Interest".to_string(),
        Tables::Events,
        Some(30),
        Some(1),
        None,
    )
    .commit(NOW, &mut store)
    .unwrap();
    let err = ev.webhook_payloads(URL, &store).unwrap_err();
    assert_eq!(err.code, ErrorCode::BusinessProcessError);
    assert_eq!(
        err.message,
        Some("Domain event type not supported".to_string())
    );
}

#[test]
fn missing_transfer_is_skipped() {
    let mut store = Store::new();
    setup(&mut store);
    // an event about a transfer row that never existed
    let ev = DomainEvent::create(
        DomainEventTypes::TransferTicketStarted,
        "Transfer was started".to_string(),
        Tables::Transfers,
        Some(9999),
        Some(1),
        None,
    )
    .commit(NOW, &mut store)
    .unwrap();
    let payloads = ev.webhook_payloads(URL, &store).unwrap();
    assert_eq!(payloads.len(), 0);
}

use bigneon_outbox::enums::OrderItemTypes;
use bigneon_outbox::enums::OrderStatus;
use bigneon_outbox::enums::OrderTypes;
use bigneon_outbox::errors::ErrorCode;
use bigneon_outbox::orders::Order;
use bigneon_outbox::store::Organization;
use bigneon_outbox::store::ShowEvent;
use bigneon_outbox::store::Store;
use bigneon_outbox::store::User;
use bigneon_outbox::store::Venue;

const NOW: i64 = 1_600_000_000;

#[test]
fn create() {
    let mut store = Store::new();
    store
        .add_venue(Venue {
            id: 20,
            name: "Venue".to_string(),
        })
        .unwrap();
    store
        .add_user(User {
            id: 1,
            first_name: Some("Bob".to_string()),
            last_name: Some("Miller".to_string()),
            email: Some("bob@example.com".to_string()),
            phone: None,
        })
        .unwrap();
    store
        .add_organization(Organization {
            id: 10,
            name: "Org".to_string(),
        })
        .unwrap();
    store
        .add_show_event(ShowEvent {
            id: 30,
            name: "NewEvent".to_string(),
            organization_id: 10,
            venue_id: Some(20),
            event_start: None,
            event_end: None,
        })
        .unwrap();
    let order = Order::create(1, OrderTypes::Cart)
        .commit(NOW, &mut store)
        .unwrap();
    assert_eq!(order.user_id, 1);
    assert_eq!(order.id.to_string().is_empty(), false);
}

#[test]
fn find_cart_for_user() {
    let mut store = Store::new();
    store
        .add_user(User {
            id: 1,
            first_name: None,
            last_name: None,
            email: None,
            phone: None,
        })
        .unwrap();
    let order = Order::create(1, OrderTypes::Cart)
        .commit(NOW, &mut store)
        .unwrap();
    let found = Order::find_cart_for_user(1, &store).unwrap();
    assert_eq!(found.id, order.id);
    assert!(Order::find_cart_for_user(2, &store).is_err());
}

#[test]
fn checkout() {
    let mut store = Store::new();
    let mut order = Order::create(1, OrderTypes::Cart)
        .commit(NOW, &mut store)
        .unwrap();
    assert_eq!(order.status(), OrderStatus::Draft);
    order.checkout(&mut store).unwrap();
    assert_eq!(order.status(), OrderStatus::PendingPayment);
    let stored = store.find_order(order.id).unwrap();
    assert_eq!(stored.status, OrderStatus::PendingPayment);
}

#[test]
fn order_items_are_bounded_and_listed() {
    let mut store = Store::new();
    let order = Order::create(1, OrderTypes::Cart)
        .commit(NOW, &mut store)
        .unwrap();
    // a quantity outside the accepted bounds is rejected
    let err = store
        .add_order_item(
            order.id,
            OrderItemTypes::Tickets,
            1000,
            2_000_000,
            0,
            None,
            None,
            None,
        )
        .unwrap_err();
    assert_eq!(err.code, ErrorCode::ValidationError);
    // more refunded than sold is rejected
    let err = store
        .add_order_item(order.id, OrderItemTypes::Tickets, 1000, 1, 2, None, None, None)
        .unwrap_err();
    assert_eq!(err.code, ErrorCode::ValidationError);

    let item = store
        .add_order_item(order.id, OrderItemTypes::Tickets, 1000, 2, 0, None, None, None)
        .unwrap();
    let items = order.items(&store);
    assert_eq!(items.len(), 1);
    assert_eq!(items[0], item);
}

#[test]
fn duplicate_user_id_is_rejected() {
    let mut store = Store::new();
    store
        .add_user(User {
            id: 1,
            first_name: None,
            last_name: None,
            email: None,
            phone: None,
        })
        .unwrap();
    let err = store
        .add_user(User {
            id: 1,
            first_name: None,
            last_name: None,
            email: None,
            phone: None,
        })
        .unwrap_err();
    assert_eq!(err.code, ErrorCode::InsertError);
}

use bigneon_outbox::enums::OrderItemTypes;
use bigneon_outbox::enums::OrderTypes;
use bigneon_outbox::enums::TicketPricingStatus;
use bigneon_outbox::errors::ErrorCode;
use bigneon_outbox::orders::Order;
use bigneon_outbox::store::Store;
use bigneon_outbox::ticket_pricing::TicketPricing;
use bigneon_outbox::ticket_pricing::TicketPricingEditableAttributes;

const NOW: i64 = 1_600_000_000;

#[test]
fn commit_validates_dates() {
    let mut store = Store::new();
    let bad = TicketPricing::create(40, "Early".to_string(), NOW + 100, NOW, 1000, false);
    let err = bad.commit(&mut store).unwrap_err();
    assert_eq!(err.code, ErrorCode::ValidationError);

    let good = TicketPricing::create(40, "Early".to_string(), NOW, NOW + 100, 1000, false);
    let row = good.commit(&mut store).unwrap();
    assert_eq!(row.status, TicketPricingStatus::Published);
    assert_eq!(row.price_in_cents, 1000);
}

#[test]
fn update_applies_attributes() {
    let mut store = Store::new();
    let row = TicketPricing::create(40, "Early".to_string(), NOW, NOW + 100, 1000, false)
        .commit(&mut store)
        .unwrap();
    let updated = row
        .update(
            &TicketPricingEditableAttributes {
                name: Some("Late".to_string()),
                price_in_cents: Some(1500),
                start_date: None,
                end_date: None,
                is_box_office_only: None,
            },
            &mut store,
        )
        .unwrap();
    assert_eq!(updated.name, "Late");
    assert_eq!(updated.price_in_cents, 1500);

    // an update that breaks the date order is rejected
    let err = row
        .update(
            &TicketPricingEditableAttributes {
                name: None,
                price_in_cents: None,
                start_date: Some(NOW + 200),
                end_date: None,
                is_box_office_only: None,
            },
            &mut store,
        )
        .unwrap_err();
    assert_eq!(err.code, ErrorCode::ValidationError);
}

#[test]
fn overlapping_periods_are_detected() {
    let mut store = Store::new();
    let row = TicketPricing::create(40, "Early".to_string(), NOW, NOW + 100, 1000, false)
        .commit(&mut store)
        .unwrap();
    // a row never conflicts with itself
    assert!(TicketPricing::ticket_pricing_no_overlapping_periods(
        row.id,
        40,
        NOW,
        NOW + 100,
        false,
        &store
    ));
    // another period overlapping the published one is flagged
    assert!(!TicketPricing::ticket_pricing_no_overlapping_periods(
        9999,
        40,
        NOW + 50,
        NOW + 150,
        false,
        &store
    ));
    // a disjoint period is fine
    assert!(TicketPricing::ticket_pricing_no_overlapping_periods(
        9999,
        40,
        NOW + 100,
        NOW + 200,
        false,
        &store
    ));
    // a different ticket type never conflicts
    assert!(TicketPricing::ticket_pricing_no_overlapping_periods(
        9999,
        41,
        NOW,
        NOW + 100,
        false,
        &store
    ));
}

#[test]
fn current_pricing_needs_exactly_one_period() {
    let mut store = Store::new();
    let err = TicketPricing::get_current_ticket_pricing(40, NOW, &store).unwrap_err();
    assert_eq!(err.code, ErrorCode::NoResults);

    TicketPricing::create(40, "Early".to_string(), NOW - 10, NOW + 100, 1000, false)
        .commit(&mut store)
        .unwrap();
    let current = TicketPricing::get_current_ticket_pricing(40, NOW, &store).unwrap();
    assert_eq!(current.name, "Early");

    TicketPricing::create(40, "Late".to_string(), NOW - 5, NOW + 200, 1500, false)
        .commit(&mut store)
        .unwrap();
    let err = TicketPricing::get_current_ticket_pricing(40, NOW, &store).unwrap_err();
    assert_eq!(err.code, ErrorCode::MultipleResultsWhenOneExpected);
}

#[test]
fn destroy_removes_unused_and_marks_used() {
    let mut store = Store::new();
    let unused = TicketPricing::create(40, "Early".to_string(), NOW, NOW + 100, 1000, false)
        .commit(&mut store)
        .unwrap();
    assert_eq!(unused.destroy(&mut store).unwrap(), 1);
    assert!(TicketPricing::find(unused.id, &store).is_err());

    let used = TicketPricing::create(40, "Late".to_string(), NOW + 100, NOW + 200, 1500, false)
        .commit(&mut store)
        .unwrap();
    let order = Order::create(1, OrderTypes::Cart)
        .commit(NOW, &mut store)
        .unwrap();
    store
        .add_order_item(
            order.id,
            OrderItemTypes::Tickets,
            1500,
            1,
            0,
            Some(40),
            None,
            Some(used.id),
        )
        .unwrap();
    assert_eq!(used.destroy(&mut store).unwrap(), 0);
    let kept = TicketPricing::find(used.id, &store).unwrap();
    assert_eq!(kept.status, TicketPricingStatus::Deleted);
}

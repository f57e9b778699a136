//! Enumerated tags shared across the domain model.

use vstd::prelude::*;

verus! {

/// The kind of business action a domain event records.
#[derive(Clone, Copy, Debug, PartialEq, Eq, Structural)]
pub enum DomainEventTypes {
    UserCreated,
    TemporaryUserCreated,
    PushNotificationTokenCreated,
    OrderCompleted,
    OrderRefund,
    OrderResendConfirmationTriggered,
    TransferTicketStarted,
    TransferTicketCancelled,
    TransferTicketCompleted,
    EventInterestCreated,
    TicketInstanceRedeemed,
}

/// The entity table a domain event is mainly about.
#[derive(Clone, Copy, Debug, PartialEq, Eq, Structural)]
pub enum Tables {
    Users,
    TemporaryUsers,
    PushNotificationTokens,
    Orders,
    Transfers,
    Events,
    TicketInstances,
    Organizations,
    Venues,
}

/// Lifecycle of a ticket transfer: `Pending` is the only non-terminal
/// state.
#[derive(Clone, Copy, Debug, PartialEq, Eq, Structural)]
pub enum TransferStatus {
    Pending,
    Cancelled,
    Completed,
}

/// How the transfer's recipient was addressed, when a contact address was
/// captured at creation time.
#[derive(Clone, Copy, Debug, PartialEq, Eq, Structural)]
pub enum TransferMessageType {
    Email,
    Phone,
}

/// Lifecycle of an order.
#[derive(Clone, Copy, Debug, PartialEq, Eq, Structural)]
pub enum OrderStatus {
    Draft,
    PendingPayment,
    Paid,
}

/// The kind of an order.
#[derive(Clone, Copy, Debug, PartialEq, Eq, Structural)]
pub enum OrderTypes {
    Cart,
    BackOffice,
}

/// The kind of an order line item, deciding which aggregate it feeds.
#[derive(Clone, Copy, Debug, PartialEq, Eq, Structural)]
pub enum OrderItemTypes {
    Tickets,
    Discount,
    PerUnitFees,
    EventFees,
    CreditCardFees,
}

/// Lifecycle of a ticket pricing period.
#[derive(Clone, Copy, Debug, PartialEq, Eq, Structural)]
pub enum TicketPricingStatus {
    Published,
    Deleted,
}

} // verus!

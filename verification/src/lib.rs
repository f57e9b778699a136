//! Domain event outbox and ticket transfer core for a ticketing marketplace.
//!
//! The crate models the storage state in memory and verifies the logic that
//! matters: the append-only domain event log with its strictly increasing
//! sequence, the non-blocking claim protocol used by concurrent dispatchers,
//! the per-event-type payload builders, the ticket transfer state machine,
//! and the signature scheme that proves ticket provenance at receive time.

pub mod dispatcher;
pub mod domain_events;
pub mod enums;
pub mod errors;
pub mod interactions;
pub mod lookup;
pub mod orders;
pub mod payloads;
pub mod signing;
pub mod store;
pub mod strutil;
pub mod ticket_pricing;
pub mod transfers;
pub mod value;

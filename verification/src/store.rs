//! The in-memory storage model: one struct holding every table the
//! outbox and transfer logic touches, with the invariants the logic
//! relies on (unique ids, a strictly increasing event sequence, one
//! default wallet per user, well-formed wallet keys, at most one pending
//! transfer per ticket).

use vstd::prelude::*;

use crate::domain_events::DomainEvent;
use crate::enums::TransferStatus;
use crate::errors::DatabaseError;
use crate::errors::ErrorCode;
use crate::orders::item_bounded;
use crate::orders::Order;
use crate::orders::OrderItem;
use crate::signing::derive_public_key;
use crate::signing::ed25519_public;
use crate::signing::is_key_hex;
use crate::strutil::hex_bytes;
use crate::strutil::hex_of;
use crate::ticket_pricing::TicketPricing;
use crate::transfers::Transfer;
use crate::transfers::TransferTicket;

verus! {

/// A registered account.
pub struct User {
    pub id: u64,
    pub first_name: Option<String>,
    pub last_name: Option<String>,
    pub email: Option<String>,
    pub phone: Option<String>,
}

/// A temporary account made for a transfer recipient who has not
/// registered yet.
pub struct TemporaryUser {
    pub id: u64,
    pub email: Option<String>,
    pub phone: Option<String>,
}

/// A device push token registered by a user.
pub struct PushNotificationToken {
    pub id: u64,
    pub user_id: u64,
    pub token_source: String,
    pub token: String,
    pub last_notification_at: Option<i64>,
    pub created_at: i64,
}

/// An organization running shows.
pub struct Organization {
    pub id: u64,
    pub name: String,
}

/// A venue a show takes place at.
pub struct Venue {
    pub id: u64,
    pub name: String,
}

/// A show (the entity customers buy tickets for).
pub struct ShowEvent {
    pub id: u64,
    pub name: String,
    pub organization_id: u64,
    pub venue_id: Option<u64>,
    pub event_start: Option<i64>,
    pub event_end: Option<i64>,
}

/// A class of tickets of one show.
pub struct TicketType {
    pub id: u64,
    pub event_id: u64,
    pub name: String,
}

/// A concrete ticket, held in a wallet.
#[derive(Clone, Copy, Debug, PartialEq, Eq, Structural)]
pub struct TicketInstance {
    pub id: u64,
    pub wallet_id: u64,
    pub event_id: u64,
}

/// A user's keypair, hex-encoded. Only the signature engine ever reads
/// the secret key.
pub struct Wallet {
    pub id: u64,
    pub user_id: u64,
    pub public_key: String,
    pub secret_key: String,
    pub is_default: bool,
}

/// An organization-level engagement record written by the interaction
/// logger.
#[derive(Clone, Copy, Debug, PartialEq, Eq, Structural)]
pub struct Interaction {
    pub organization_id: u64,
    pub user_id: u64,
    pub at: i64,
}

/// The whole storage state.
pub struct Store {
    /// Sequence the next committed domain event receives.
    pub next_seq: u64,
    /// Row id the next store-assigned row (order, transfer, pricing)
    /// receives.
    pub next_row_id: u64,
    /// The append-only domain event log, ascending by sequence.
    pub domain_events: Vec<DomainEvent>,
    /// Sequences currently claimed by a dispatcher.
    pub locks: Vec<u64>,
    pub users: Vec<User>,
    pub temporary_users: Vec<TemporaryUser>,
    pub push_tokens: Vec<PushNotificationToken>,
    pub organizations: Vec<Organization>,
    pub venues: Vec<Venue>,
    pub show_events: Vec<ShowEvent>,
    pub ticket_types: Vec<TicketType>,
    pub ticket_instances: Vec<TicketInstance>,
    pub wallets: Vec<Wallet>,
    pub orders: Vec<Order>,
    pub order_items: Vec<OrderItem>,
    pub transfers: Vec<Transfer>,
    pub transfer_tickets: Vec<TransferTicket>,
    pub ticket_pricing: Vec<TicketPricing>,
    pub interactions: Vec<Interaction>,
}

pub open spec fn has_user(s: Store, id: u64) -> bool {
    exists|i: int| 0 <= i < s.users@.len() && (#[trigger] s.users@[i]).id == id
}

pub open spec fn has_temporary_user(s: Store, id: u64) -> bool {
    exists|i: int| 0 <= i < s.temporary_users@.len() && (#[trigger] s.temporary_users@[i]).id == id
}

pub open spec fn has_push_token(s: Store, id: u64) -> bool {
    exists|i: int| 0 <= i < s.push_tokens@.len() && (#[trigger] s.push_tokens@[i]).id == id
}

pub open spec fn has_organization(s: Store, id: u64) -> bool {
    exists|i: int| 0 <= i < s.organizations@.len() && (#[trigger] s.organizations@[i]).id == id
}

pub open spec fn has_venue(s: Store, id: u64) -> bool {
    exists|i: int| 0 <= i < s.venues@.len() && (#[trigger] s.venues@[i]).id == id
}

pub open spec fn has_show_event(s: Store, id: u64) -> bool {
    exists|i: int| 0 <= i < s.show_events@.len() && (#[trigger] s.show_events@[i]).id == id
}

pub open spec fn has_ticket_type(s: Store, id: u64) -> bool {
    exists|i: int| 0 <= i < s.ticket_types@.len() && (#[trigger] s.ticket_types@[i]).id == id
}

pub open spec fn has_ticket_instance(s: Store, id: u64) -> bool {
    exists|i: int|
        0 <= i < s.ticket_instances@.len() && (#[trigger] s.ticket_instances@[i]).id == id
}

pub open spec fn has_wallet(s: Store, id: u64) -> bool {
    exists|i: int| 0 <= i < s.wallets@.len() && (#[trigger] s.wallets@[i]).id == id
}

pub open spec fn has_order(s: Store, id: u64) -> bool {
    exists|i: int| 0 <= i < s.orders@.len() && (#[trigger] s.orders@[i]).id == id
}

pub open spec fn has_transfer(s: Store, id: u64) -> bool {
    exists|i: int| 0 <= i < s.transfers@.len() && (#[trigger] s.transfers@[i]).id == id
}

pub open spec fn has_ticket_pricing(s: Store, id: u64) -> bool {
    exists|i: int| 0 <= i < s.ticket_pricing@.len() && (#[trigger] s.ticket_pricing@[i]).id == id
}

/// Whether `user_id` has a default wallet.
pub open spec fn has_default_wallet(s: Store, user_id: u64) -> bool {
    exists|i: int|
        0 <= i < s.wallets@.len() && (#[trigger] s.wallets@[i]).user_id == user_id
            && s.wallets@[i].is_default
}

/// Whether the transfer with the given id exists and is pending.
pub open spec fn transfer_pending(transfers: Seq<Transfer>, id: u64) -> bool {
    exists|i: int|
        0 <= i < transfers.len() && (#[trigger] transfers[i]).id == id && transfers[i].status
            == TransferStatus::Pending
}

impl Store {
    /// The event log invariant: ascending unique sequences below the
    /// counter, each row id equal to its sequence (both come from the
    /// same storage counter), and commit times that never decrease, so
    /// ordering by sequence is ordering by creation time.
    pub open spec fn log_wf(self) -> bool {
        &&& forall|i: int, j: int|
            0 <= i < j < self.domain_events@.len() ==> (#[trigger] self.domain_events@[i]).seq < (
            #[trigger] self.domain_events@[j]).seq
        &&& forall|i: int, j: int|
            0 <= i < j < self.domain_events@.len() ==> (#[trigger] self.domain_events@[i]).created_at
                <= (#[trigger] self.domain_events@[j]).created_at
        &&& forall|i: int|
            0 <= i < self.domain_events@.len() ==> (#[trigger] self.domain_events@[i]).seq
                < self.next_seq
        &&& forall|i: int|
            0 <= i < self.domain_events@.len() ==> (#[trigger] self.domain_events@[i]).id
                == self.domain_events@[i].seq
    }

    /// Every table keyed by id holds each id at most once.
    pub open spec fn ids_wf(self) -> bool {
        &&& forall|i: int, j: int|
            0 <= i < j < self.users@.len() ==> (#[trigger] self.users@[i]).id != (
            #[trigger] self.users@[j]).id
        &&& forall|i: int, j: int|
            0 <= i < j < self.temporary_users@.len() ==> (#[trigger] self.temporary_users@[i]).id
                != (#[trigger] self.temporary_users@[j]).id
        &&& forall|i: int, j: int|
            0 <= i < j < self.push_tokens@.len() ==> (#[trigger] self.push_tokens@[i]).id != (
            #[trigger] self.push_tokens@[j]).id
        &&& forall|i: int, j: int|
            0 <= i < j < self.organizations@.len() ==> (#[trigger] self.organizations@[i]).id != (
            #[trigger] self.organizations@[j]).id
        &&& forall|i: int, j: int|
            0 <= i < j < self.venues@.len() ==> (#[trigger] self.venues@[i]).id != (
            #[trigger] self.venues@[j]).id
        &&& forall|i: int, j: int|
            0 <= i < j < self.show_events@.len() ==> (#[trigger] self.show_events@[i]).id != (
            #[trigger] self.show_events@[j]).id
        &&& forall|i: int, j: int|
            0 <= i < j < self.ticket_types@.len() ==> (#[trigger] self.ticket_types@[i]).id != (
            #[trigger] self.ticket_types@[j]).id
        &&& forall|i: int, j: int|
            0 <= i < j < self.ticket_instances@.len() ==> (
            #[trigger] self.ticket_instances@[i]).id != (#[trigger] self.ticket_instances@[j]).id
        &&& forall|i: int, j: int|
            0 <= i < j < self.wallets@.len() ==> (#[trigger] self.wallets@[i]).id != (
            #[trigger] self.wallets@[j]).id
        &&& forall|i: int, j: int|
            0 <= i < j < self.orders@.len() ==> (#[trigger] self.orders@[i]).id != (
            #[trigger] self.orders@[j]).id
        &&& forall|i: int, j: int|
            0 <= i < j < self.transfers@.len() ==> (#[trigger] self.transfers@[i]).id != (
            #[trigger] self.transfers@[j]).id
        &&& forall|i: int, j: int|
            0 <= i < j < self.ticket_pricing@.len() ==> (#[trigger] self.ticket_pricing@[i]).id
                != (#[trigger] self.ticket_pricing@[j]).id
        &&& forall|i: int, j: int|
            0 <= i < j < self.order_items@.len() ==> (#[trigger] self.order_items@[i]).id != (
            #[trigger] self.order_items@[j]).id
    }

    /// Store-assigned row ids stay below the row counter, so a fresh
    /// counter value is never in use.
    pub open spec fn row_ids_wf(self) -> bool {
        &&& forall|i: int|
            0 <= i < self.orders@.len() ==> (#[trigger] self.orders@[i]).id < self.next_row_id
        &&& forall|i: int|
            0 <= i < self.transfers@.len() ==> (#[trigger] self.transfers@[i]).id
                < self.next_row_id
        &&& forall|i: int|
            0 <= i < self.ticket_pricing@.len() ==> (#[trigger] self.ticket_pricing@[i]).id
                < self.next_row_id
        &&& forall|i: int|
            0 <= i < self.order_items@.len() ==> (#[trigger] self.order_items@[i]).id
                < self.next_row_id
        &&& forall|i: int|
            0 <= i < self.transfer_tickets@.len() ==> (
            #[trigger] self.transfer_tickets@[i]).transfer_id < self.next_row_id
    }

    /// Wallet invariants: one default wallet per user, and every stored
    /// key well-formed with the public key derived from the secret key.
    pub open spec fn wallets_wf(self) -> bool {
        &&& forall|i: int, j: int|
            0 <= i < j < self.wallets@.len() ==> !((#[trigger] self.wallets@[i]).user_id == (
            #[trigger] self.wallets@[j]).user_id && self.wallets@[i].is_default
                && self.wallets@[j].is_default)
        &&& forall|i: int|
            0 <= i < self.wallets@.len() ==> is_key_hex(
                (#[trigger] self.wallets@[i]).secret_key@,
            ) && self.wallets@[i].public_key@ == hex_of(
                ed25519_public(hex_bytes(self.wallets@[i].secret_key@)),
            )
    }

    /// Transfer invariants: the destination account is recorded exactly
    /// on completion; ticket bindings are unique per transfer; and a
    /// ticket belongs to at most one pending transfer.
    pub open spec fn transfers_wf(self) -> bool {
        &&& forall|i: int|
            0 <= i < self.transfers@.len() ==> (((#[trigger] self.transfers@[i]).destination_user_id
                is Some) <==> self.transfers@[i].status == TransferStatus::Completed)
        &&& forall|i: int, j: int|
            0 <= i < j < self.transfer_tickets@.len() ==> !((
            #[trigger] self.transfer_tickets@[i]).transfer_id == (
            #[trigger] self.transfer_tickets@[j]).transfer_id
                && self.transfer_tickets@[i].ticket_instance_id
                == self.transfer_tickets@[j].ticket_instance_id)
        &&& forall|i: int, j: int|
            0 <= i < j < self.transfer_tickets@.len() && (
            #[trigger] self.transfer_tickets@[i]).ticket_instance_id == (
            #[trigger] self.transfer_tickets@[j]).ticket_instance_id && transfer_pending(
                self.transfers@,
                self.transfer_tickets@[i].transfer_id,
            ) && transfer_pending(self.transfers@, self.transfer_tickets@[j].transfer_id)
                ==> self.transfer_tickets@[i].transfer_id == self.transfer_tickets@[j].transfer_id
        &&& forall|i: int, j: int|
            0 <= i < j < self.transfers@.len() ==> (#[trigger] self.transfers@[i]).transfer_key
                != (#[trigger] self.transfers@[j]).transfer_key
    }

    /// Every stored line item is inside the aggregation bounds.
    pub open spec fn items_wf(self) -> bool {
        forall|i: int|
            0 <= i < self.order_items@.len() ==> item_bounded(#[trigger] self.order_items@[i])
    }

    /// The whole store invariant.
    pub open spec fn wf(self) -> bool {
        &&& self.log_wf()
        &&& self.ids_wf()
        &&& self.row_ids_wf()
        &&& self.wallets_wf()
        &&& self.transfers_wf()
        &&& self.items_wf()
    }

    /// An empty store.
    pub fn new() -> (s: Store)
        ensures
            s.wf(),
            s.next_seq == 1,
            s.next_row_id == 1,
            s.domain_events@.len() == 0,
            s.locks@.len() == 0,
            s.users@.len() == 0,
            s.temporary_users@.len() == 0,
            s.push_tokens@.len() == 0,
            s.organizations@.len() == 0,
            s.venues@.len() == 0,
            s.show_events@.len() == 0,
            s.ticket_types@.len() == 0,
            s.ticket_instances@.len() == 0,
            s.wallets@.len() == 0,
            s.orders@.len() == 0,
            s.order_items@.len() == 0,
            s.transfers@.len() == 0,
            s.transfer_tickets@.len() == 0,
            s.ticket_pricing@.len() == 0,
            s.interactions@.len() == 0,
    {
        Store {
            next_seq: 1,
            next_row_id: 1,
            domain_events: Vec::new(),
            locks: Vec::new(),
            users: Vec::new(),
            temporary_users: Vec::new(),
            push_tokens: Vec::new(),
            organizations: Vec::new(),
            venues: Vec::new(),
            show_events: Vec::new(),
            ticket_types: Vec::new(),
            ticket_instances: Vec::new(),
            wallets: Vec::new(),
            orders: Vec::new(),
            order_items: Vec::new(),
            transfers: Vec::new(),
            transfer_tickets: Vec::new(),
            ticket_pricing: Vec::new(),
            interactions: Vec::new(),
        }
    }

    /// Hands out a row id never used before and advances the counter;
    /// `None` once the id space is exhausted.
    pub fn fresh_row_id(&mut self) -> (r: Option<u64>)
        requires
            old(self).wf(),
        ensures
            final(self).wf(),
            r is Some <==> old(self).next_row_id < u64::MAX,
            match r {
                Some(v) => {
                    &&& v == old(self).next_row_id
                    &&& final(self).next_row_id == v + 1
                    &&& (*final(self) == Store {
                        next_row_id: final(self).next_row_id,
                        ..*old(self)
                    })
                },
                None => *final(self) == *old(self),
            },
    {
        if self.next_row_id == u64::MAX {
            return None;
        }
        let v = self.next_row_id;
        self.next_row_id = v + 1;
        Some(v)
    }

    /// Adds a user; errors when the id is taken.
    pub fn add_user(&mut self, user: User) -> (r: Result<(), DatabaseError>)
        requires
            old(self).wf(),
        ensures
            final(self).wf(),
            match r {
                Ok(()) => {
                    &&& !has_user(*old(self), user.id)
                    &&& final(self).users@ == old(self).users@.push(user)
                    &&& (*final(self) == Store { users: final(self).users, ..*old(self) })
                },
                Err(e) => e.code == ErrorCode::InsertError && has_user(*old(self), user.id)
                    && *final(self) == *old(self),
            },
    {
        let mut i: usize = 0;
        while i < self.users.len()
            invariant
                old(self).wf(),
                *self == *old(self),
                i <= self.users@.len(),
                forall|j: int| 0 <= j < i ==> (#[trigger] self.users@[j]).id != user.id,
            decreases self.users@.len() - i,
        {
            if self.users[i].id == user.id {
                return Err(
                    DatabaseError::with_text(ErrorCode::InsertError, "User id is already taken"),
                );
            }
            i = i + 1;
        }
        self.users.push(user);
        Ok(())
    }

    /// Finds a user by id.
    pub fn find_user(&self, id: u64) -> (r: Option<&User>)
        ensures
            match r {
                Some(u) => u.id == id && self.users@.contains(*u),
                None => !has_user(*self, id),
            },
    {
        let mut i: usize = 0;
        while i < self.users.len()
            invariant
                i <= self.users@.len(),
                forall|j: int| 0 <= j < i ==> (#[trigger] self.users@[j]).id != id,
            decreases self.users@.len() - i,
        {
            if self.users[i].id == id {
                return Some(&self.users[i]);
            }
            i = i + 1;
        }
        None
    }

    /// Adds a temporary user; errors when the id is taken.
    pub fn add_temporary_user(&mut self, user: TemporaryUser) -> (r: Result<(), DatabaseError>)
        requires
            old(self).wf(),
        ensures
            final(self).wf(),
            match r {
                Ok(()) => {
                    &&& !has_temporary_user(*old(self), user.id)
                    &&& final(self).temporary_users@ == old(self).temporary_users@.push(user)
                    &&& (*final(self) == Store {
                        temporary_users: final(self).temporary_users,
                        ..*old(self)
                    })
                },
                Err(e) => e.code == ErrorCode::InsertError && has_temporary_user(
                    *old(self),
                    user.id,
                ) && *final(self) == *old(self),
            },
    {
        let mut i: usize = 0;
        while i < self.temporary_users.len()
            invariant
                old(self).wf(),
                *self == *old(self),
                i <= self.temporary_users@.len(),
                forall|j: int| 0 <= j < i ==> (#[trigger] self.temporary_users@[j]).id != user.id,
            decreases self.temporary_users@.len() - i,
        {
            if self.temporary_users[i].id == user.id {
                return Err(
                    DatabaseError::with_text(
                        ErrorCode::InsertError,
                        "Temporary user id is already taken",
                    ),
                );
            }
            i = i + 1;
        }
        self.temporary_users.push(user);
        Ok(())
    }

    /// Finds a temporary user by id.
    pub fn find_temporary_user(&self, id: u64) -> (r: Option<&TemporaryUser>)
        ensures
            match r {
                Some(u) => u.id == id && self.temporary_users@.contains(*u),
                None => !has_temporary_user(*self, id),
            },
    {
        let mut i: usize = 0;
        while i < self.temporary_users.len()
            invariant
                i <= self.temporary_users@.len(),
                forall|j: int| 0 <= j < i ==> (#[trigger] self.temporary_users@[j]).id != id,
            decreases self.temporary_users@.len() - i,
        {
            if self.temporary_users[i].id == id {
                return Some(&self.temporary_users[i]);
            }
            i = i + 1;
        }
        None
    }

    /// Adds a push token; errors when the id is taken.
    pub fn add_push_token(&mut self, token: PushNotificationToken) -> (r: Result<
        (),
        DatabaseError,
    >)
        requires
            old(self).wf(),
        ensures
            final(self).wf(),
            match r {
                Ok(()) => {
                    &&& !has_push_token(*old(self), token.id)
                    &&& final(self).push_tokens@ == old(self).push_tokens@.push(token)
                    &&& (*final(self) == Store {
                        push_tokens: final(self).push_tokens,
                        ..*old(self)
                    })
                },
                Err(e) => e.code == ErrorCode::InsertError && has_push_token(*old(self), token.id)
                    && *final(self) == *old(self),
            },
    {
        let mut i: usize = 0;
        while i < self.push_tokens.len()
            invariant
                old(self).wf(),
                *self == *old(self),
                i <= self.push_tokens@.len(),
                forall|j: int| 0 <= j < i ==> (#[trigger] self.push_tokens@[j]).id != token.id,
            decreases self.push_tokens@.len() - i,
        {
            if self.push_tokens[i].id == token.id {
                return Err(
                    DatabaseError::with_text(
                        ErrorCode::InsertError,
                        "Push token id is already taken",
                    ),
                );
            }
            i = i + 1;
        }
        self.push_tokens.push(token);
        Ok(())
    }

    /// Finds a push token by id.
    pub fn find_push_token(&self, id: u64) -> (r: Option<&PushNotificationToken>)
        ensures
            match r {
                Some(t) => t.id == id && self.push_tokens@.contains(*t),
                None => !has_push_token(*self, id),
            },
    {
        let mut i: usize = 0;
        while i < self.push_tokens.len()
            invariant
                i <= self.push_tokens@.len(),
                forall|j: int| 0 <= j < i ==> (#[trigger] self.push_tokens@[j]).id != id,
            decreases self.push_tokens@.len() - i,
        {
            if self.push_tokens[i].id == id {
                return Some(&self.push_tokens[i]);
            }
            i = i + 1;
        }
        None
    }

    /// Deletes a push token; errors when it does not exist. Models the
    /// race the payload builder must tolerate: a token deleted between
    /// event creation and dispatch.
    pub fn remove_push_token(&mut self, id: u64) -> (r: Result<(), DatabaseError>)
        requires
            old(self).wf(),
        ensures
            final(self).wf(),
            match r {
                Ok(()) => {
                    &&& has_push_token(*old(self), id)
                    &&& !has_push_token(*final(self), id)
                    &&& (*final(self) == Store {
                        push_tokens: final(self).push_tokens,
                        ..*old(self)
                    })
                    &&& exists|i: int|
                        0 <= i < old(self).push_tokens@.len() && (#[trigger] old(
                            self,
                        ).push_tokens@[i]).id == id && final(self).push_tokens@ == old(
                            self,
                        ).push_tokens@.remove(i)
                },
                Err(e) => e.code == ErrorCode::NoResults && !has_push_token(*old(self), id)
                    && *final(self) == *old(self),
            },
    {
        let mut i: usize = 0;
        while i < self.push_tokens.len()
            invariant
                old(self).wf(),
                *self == *old(self),
                i <= self.push_tokens@.len(),
                forall|j: int| 0 <= j < i ==> (#[trigger] self.push_tokens@[j]).id != id,
            decreases self.push_tokens@.len() - i,
        {
            if self.push_tokens[i].id == id {
                let ghost tokens0 = self.push_tokens@;
                self.push_tokens.remove(i);
                proof {
                    assert(self.push_tokens@ == tokens0.remove(i as int));
                    assert forall|a: int|
                        0 <= a < self.push_tokens@.len() implies (
                    #[trigger] self.push_tokens@[a]).id == (if a < i {
                        tokens0[a].id
                    } else {
                        tokens0[a + 1].id
                    }) by {
                        assert(self.push_tokens@[a] == if a < i {
                            tokens0[a]
                        } else {
                            tokens0[a + 1]
                        });
                    }
                    assert(!has_push_token(*self, id)) by {
                        if has_push_token(*self, id) {
                            let w = choose|w: int|
                                0 <= w < self.push_tokens@.len() && (
                                #[trigger] self.push_tokens@[w]).id == id;
                            if w < i {
                                assert(tokens0[w].id == id);
                            } else {
                                assert(tokens0[w + 1].id == id);
                            }
                        }
                    }
                    assert(self.wf());
                }
                return Ok(());
            }
            i = i + 1;
        }
        Err(DatabaseError::with_text(ErrorCode::NoResults, "Push token not found"))
    }

    /// Adds an organization; errors when the id is taken.
    pub fn add_organization(&mut self, org: Organization) -> (r: Result<(), DatabaseError>)
        requires
            old(self).wf(),
        ensures
            final(self).wf(),
            match r {
                Ok(()) => {
                    &&& !has_organization(*old(self), org.id)
                    &&& final(self).organizations@ == old(self).organizations@.push(org)
                    &&& (*final(self) == Store {
                        organizations: final(self).organizations,
                        ..*old(self)
                    })
                },
                Err(e) => e.code == ErrorCode::InsertError && has_organization(*old(self), org.id)
                    && *final(self) == *old(self),
            },
    {
        let mut i: usize = 0;
        while i < self.organizations.len()
            invariant
                old(self).wf(),
                *self == *old(self),
                i <= self.organizations@.len(),
                forall|j: int| 0 <= j < i ==> (#[trigger] self.organizations@[j]).id != org.id,
            decreases self.organizations@.len() - i,
        {
            if self.organizations[i].id == org.id {
                return Err(
                    DatabaseError::with_text(
                        ErrorCode::InsertError,
                        "Organization id is already taken",
                    ),
                );
            }
            i = i + 1;
        }
        self.organizations.push(org);
        Ok(())
    }

    /// Finds an organization by id.
    pub fn find_organization(&self, id: u64) -> (r: Option<&Organization>)
        ensures
            match r {
                Some(o) => o.id == id && self.organizations@.contains(*o),
                None => !has_organization(*self, id),
            },
    {
        let mut i: usize = 0;
        while i < self.organizations.len()
            invariant
                i <= self.organizations@.len(),
                forall|j: int| 0 <= j < i ==> (#[trigger] self.organizations@[j]).id != id,
            decreases self.organizations@.len() - i,
        {
            if self.organizations[i].id == id {
                return Some(&self.organizations[i]);
            }
            i = i + 1;
        }
        None
    }

    /// Adds a venue; errors when the id is taken.
    pub fn add_venue(&mut self, venue: Venue) -> (r: Result<(), DatabaseError>)
        requires
            old(self).wf(),
        ensures
            final(self).wf(),
            match r {
                Ok(()) => {
                    &&& !has_venue(*old(self), venue.id)
                    &&& final(self).venues@ == old(self).venues@.push(venue)
                    &&& (*final(self) == Store { venues: final(self).venues, ..*old(self) })
                },
                Err(e) => e.code == ErrorCode::InsertError && has_venue(*old(self), venue.id)
                    && *final(self) == *old(self),
            },
    {
        let mut i: usize = 0;
        while i < self.venues.len()
            invariant
                old(self).wf(),
                *self == *old(self),
                i <= self.venues@.len(),
                forall|j: int| 0 <= j < i ==> (#[trigger] self.venues@[j]).id != venue.id,
            decreases self.venues@.len() - i,
        {
            if self.venues[i].id == venue.id {
                return Err(
                    DatabaseError::with_text(ErrorCode::InsertError, "Venue id is already taken"),
                );
            }
            i = i + 1;
        }
        self.venues.push(venue);
        Ok(())
    }

    /// Finds a venue by id.
    pub fn find_venue(&self, id: u64) -> (r: Option<&Venue>)
        ensures
            match r {
                Some(v) => v.id == id && self.venues@.contains(*v),
                None => !has_venue(*self, id),
            },
    {
        let mut i: usize = 0;
        while i < self.venues.len()
            invariant
                i <= self.venues@.len(),
                forall|j: int| 0 <= j < i ==> (#[trigger] self.venues@[j]).id != id,
            decreases self.venues@.len() - i,
        {
            if self.venues[i].id == id {
                return Some(&self.venues[i]);
            }
            i = i + 1;
        }
        None
    }

    /// Adds a show; errors when the id is taken.
    pub fn add_show_event(&mut self, event: ShowEvent) -> (r: Result<(), DatabaseError>)
        requires
            old(self).wf(),
        ensures
            final(self).wf(),
            match r {
                Ok(()) => {
                    &&& !has_show_event(*old(self), event.id)
                    &&& final(self).show_events@ == old(self).show_events@.push(event)
                    &&& (*final(self) == Store {
                        show_events: final(self).show_events,
                        ..*old(self)
                    })
                },
                Err(e) => e.code == ErrorCode::InsertError && has_show_event(*old(self), event.id)
                    && *final(self) == *old(self),
            },
    {
        let mut i: usize = 0;
        while i < self.show_events.len()
            invariant
                old(self).wf(),
                *self == *old(self),
                i <= self.show_events@.len(),
                forall|j: int| 0 <= j < i ==> (#[trigger] self.show_events@[j]).id != event.id,
            decreases self.show_events@.len() - i,
        {
            if self.show_events[i].id == event.id {
                return Err(
                    DatabaseError::with_text(ErrorCode::InsertError, "Event id is already taken"),
                );
            }
            i = i + 1;
        }
        self.show_events.push(event);
        Ok(())
    }

    /// Finds a show by id.
    pub fn find_show_event(&self, id: u64) -> (r: Option<&ShowEvent>)
        ensures
            match r {
                Some(e) => e.id == id && self.show_events@.contains(*e),
                None => !has_show_event(*self, id),
            },
    {
        let mut i: usize = 0;
        while i < self.show_events.len()
            invariant
                i <= self.show_events@.len(),
                forall|j: int| 0 <= j < i ==> (#[trigger] self.show_events@[j]).id != id,
            decreases self.show_events@.len() - i,
        {
            if self.show_events[i].id == id {
                return Some(&self.show_events[i]);
            }
            i = i + 1;
        }
        None
    }

    /// Adds a ticket type; errors when the id is taken.
    pub fn add_ticket_type(&mut self, tt: TicketType) -> (r: Result<(), DatabaseError>)
        requires
            old(self).wf(),
        ensures
            final(self).wf(),
            match r {
                Ok(()) => {
                    &&& !has_ticket_type(*old(self), tt.id)
                    &&& final(self).ticket_types@ == old(self).ticket_types@.push(tt)
                    &&& (*final(self) == Store {
                        ticket_types: final(self).ticket_types,
                        ..*old(self)
                    })
                },
                Err(e) => e.code == ErrorCode::InsertError && has_ticket_type(*old(self), tt.id)
                    && *final(self) == *old(self),
            },
    {
        let mut i: usize = 0;
        while i < self.ticket_types.len()
            invariant
                old(self).wf(),
                *self == *old(self),
                i <= self.ticket_types@.len(),
                forall|j: int| 0 <= j < i ==> (#[trigger] self.ticket_types@[j]).id != tt.id,
            decreases self.ticket_types@.len() - i,
        {
            if self.ticket_types[i].id == tt.id {
                return Err(
                    DatabaseError::with_text(
                        ErrorCode::InsertError,
                        "Ticket type id is already taken",
                    ),
                );
            }
            i = i + 1;
        }
        self.ticket_types.push(tt);
        Ok(())
    }

    /// Finds a ticket type by id.
    pub fn find_ticket_type(&self, id: u64) -> (r: Option<&TicketType>)
        ensures
            match r {
                Some(t) => t.id == id && self.ticket_types@.contains(*t),
                None => !has_ticket_type(*self, id),
            },
    {
        let mut i: usize = 0;
        while i < self.ticket_types.len()
            invariant
                i <= self.ticket_types@.len(),
                forall|j: int| 0 <= j < i ==> (#[trigger] self.ticket_types@[j]).id != id,
            decreases self.ticket_types@.len() - i,
        {
            if self.ticket_types[i].id == id {
                return Some(&self.ticket_types[i]);
            }
            i = i + 1;
        }
        None
    }

    /// Adds a ticket instance; errors when the id is taken.
    pub fn add_ticket_instance(&mut self, ti: TicketInstance) -> (r: Result<(), DatabaseError>)
        requires
            old(self).wf(),
        ensures
            final(self).wf(),
            match r {
                Ok(()) => {
                    &&& !has_ticket_instance(*old(self), ti.id)
                    &&& final(self).ticket_instances@ == old(self).ticket_instances@.push(ti)
                    &&& (*final(self) == Store {
                        ticket_instances: final(self).ticket_instances,
                        ..*old(self)
                    })
                },
                Err(e) => e.code == ErrorCode::InsertError && has_ticket_instance(
                    *old(self),
                    ti.id,
                ) && *final(self) == *old(self),
            },
    {
        let mut i: usize = 0;
        while i < self.ticket_instances.len()
            invariant
                old(self).wf(),
                *self == *old(self),
                i <= self.ticket_instances@.len(),
                forall|j: int| 0 <= j < i ==> (#[trigger] self.ticket_instances@[j]).id != ti.id,
            decreases self.ticket_instances@.len() - i,
        {
            if self.ticket_instances[i].id == ti.id {
                return Err(
                    DatabaseError::with_text(
                        ErrorCode::InsertError,
                        "Ticket instance id is already taken",
                    ),
                );
            }
            i = i + 1;
        }
        self.ticket_instances.push(ti);
        Ok(())
    }

    /// Finds a ticket instance by id.
    pub fn find_ticket_instance(&self, id: u64) -> (r: Option<&TicketInstance>)
        ensures
            match r {
                Some(t) => t.id == id && self.ticket_instances@.contains(*t),
                None => !has_ticket_instance(*self, id),
            },
    {
        let mut i: usize = 0;
        while i < self.ticket_instances.len()
            invariant
                i <= self.ticket_instances@.len(),
                forall|j: int| 0 <= j < i ==> (#[trigger] self.ticket_instances@[j]).id != id,
            decreases self.ticket_instances@.len() - i,
        {
            if self.ticket_instances[i].id == id {
                return Some(&self.ticket_instances[i]);
            }
            i = i + 1;
        }
        None
    }

    /// Finds a wallet by id.
    pub fn find_wallet(&self, id: u64) -> (r: Option<&Wallet>)
        ensures
            match r {
                Some(w) => w.id == id && self.wallets@.contains(*w),
                None => !has_wallet(*self, id),
            },
    {
        let mut i: usize = 0;
        while i < self.wallets.len()
            invariant
                i <= self.wallets@.len(),
                forall|j: int| 0 <= j < i ==> (#[trigger] self.wallets@[j]).id != id,
            decreases self.wallets@.len() - i,
        {
            if self.wallets[i].id == id {
                return Some(&self.wallets[i]);
            }
            i = i + 1;
        }
        None
    }

    /// Creates the default wallet of `user_id` from a hex-encoded secret
    /// key, deriving and storing the matching public key. Errors when the
    /// wallet id is taken, the user already has a default wallet, or the
    /// secret key is not 64 lowercase hex characters.
    pub fn create_default_wallet(&mut self, id: u64, user_id: u64, secret_key_hex: &str) -> (r:
        Result<(), DatabaseError>)
        requires
            old(self).wf(),
        ensures
            final(self).wf(),
            match r {
                Ok(()) => {
                    &&& !has_wallet(*old(self), id)
                    &&& !has_default_wallet(*old(self), user_id)
                    &&& is_key_hex(secret_key_hex@)
                    &&& final(self).wallets@.len() == old(self).wallets@.len() + 1
                    &&& (*final(self) == Store { wallets: final(self).wallets, ..*old(self) })
                    &&& {
                        let w = final(self).wallets@.last();
                        &&& final(self).wallets@ == old(self).wallets@.push(w)
                        &&& w.id == id
                        &&& w.user_id == user_id
                        &&& w.is_default
                        &&& w.secret_key@ == secret_key_hex@
                        &&& w.public_key@ == hex_of(ed25519_public(hex_bytes(secret_key_hex@)))
                    }
                },
                Err(e) => *final(self) == *old(self) && (has_wallet(*old(self), id)
                    || has_default_wallet(*old(self), user_id) || !is_key_hex(secret_key_hex@)),
            },
    {
        let mut i: usize = 0;
        while i < self.wallets.len()
            invariant
                old(self).wf(),
                *self == *old(self),
                i <= self.wallets@.len(),
                forall|j: int|
                    0 <= j < i ==> (#[trigger] self.wallets@[j]).id != id && !(
                    self.wallets@[j].user_id == user_id && self.wallets@[j].is_default),
            decreases self.wallets@.len() - i,
        {
            if self.wallets[i].id == id {
                return Err(
                    DatabaseError::with_text(ErrorCode::InsertError, "Wallet id is already taken"),
                );
            }
            if self.wallets[i].user_id == user_id && self.wallets[i].is_default {
                return Err(
                    DatabaseError::with_text(
                        ErrorCode::InsertError,
                        "User already has a default wallet",
                    ),
                );
            }
            i = i + 1;
        }
        let public_key = match derive_public_key(secret_key_hex) {
            Ok(p) => p,
            Err(e) => {
                return Err(e);
            },
        };
        let wallet = Wallet {
            id,
            user_id,
            public_key,
            secret_key: secret_key_hex.to_owned(),
            is_default: true,
        };
        self.wallets.push(wallet);
        Ok(())
    }

    /// The default wallet of `user_id`, if one exists.
    pub fn find_default_wallet(&self, user_id: u64) -> (r: Option<&Wallet>)
        ensures
            match r {
                Some(w) => w.user_id == user_id && w.is_default && self.wallets@.contains(*w),
                None => !has_default_wallet(*self, user_id),
            },
    {
        let mut i: usize = 0;
        while i < self.wallets.len()
            invariant
                i <= self.wallets@.len(),
                forall|j: int|
                    0 <= j < i ==> !((#[trigger] self.wallets@[j]).user_id == user_id
                        && self.wallets@[j].is_default),
            decreases self.wallets@.len() - i,
        {
            if self.wallets[i].user_id == user_id && self.wallets[i].is_default {
                return Some(&self.wallets[i]);
            }
            i = i + 1;
        }
        None
    }

    /// Finds an order by id.
    pub fn find_order(&self, id: u64) -> (r: Option<&Order>)
        ensures
            match r {
                Some(o) => o.id == id && self.orders@.contains(*o),
                None => !has_order(*self, id),
            },
    {
        let mut i: usize = 0;
        while i < self.orders.len()
            invariant
                i <= self.orders@.len(),
                forall|j: int| 0 <= j < i ==> (#[trigger] self.orders@[j]).id != id,
            decreases self.orders@.len() - i,
        {
            if self.orders[i].id == id {
                return Some(&self.orders[i]);
            }
            i = i + 1;
        }
        None
    }

    /// Appends a committed order row; the caller guarantees freshness of
    /// the id through `fresh_row_id`.
    pub(crate) fn push_order(&mut self, order: Order)
        requires
            old(self).wf(),
            order.id < old(self).next_row_id,
            forall|i: int| 0 <= i < old(self).orders@.len() ==> (#[trigger] old(self).orders@[i]).id != order.id,
        ensures
            final(self).wf(),
            final(self).orders@ == old(self).orders@.push(order),
            (*final(self) == Store { orders: final(self).orders, ..*old(self) }),
    {
        self.orders.push(order);
    }

    /// Adds a line item under a fresh id; rejects one outside the
    /// accepted bounds. The bounds keep every aggregate the payload
    /// builder computes inside machine integers.
    pub fn add_order_item(
        &mut self,
        order_id: u64,
        item_type: crate::enums::OrderItemTypes,
        unit_price_in_cents: i64,
        quantity: i64,
        refunded_quantity: i64,
        ticket_type_id: Option<u64>,
        ticket_instance_id: Option<u64>,
        ticket_pricing_id: Option<u64>,
    ) -> (r: Result<OrderItem, DatabaseError>)
        requires
            old(self).wf(),
        ensures
            final(self).wf(),
            r is Ok <==> (item_bounded(
                OrderItem {
                    id: 0,
                    order_id,
                    item_type,
                    unit_price_in_cents,
                    quantity,
                    refunded_quantity,
                    ticket_type_id,
                    ticket_instance_id,
                    ticket_pricing_id,
                },
            ) && old(self).next_row_id < u64::MAX),
            match r {
                Ok(it) => {
                    &&& it == (OrderItem {
                        id: it.id,
                        order_id,
                        item_type,
                        unit_price_in_cents,
                        quantity,
                        refunded_quantity,
                        ticket_type_id,
                        ticket_instance_id,
                        ticket_pricing_id,
                    })
                    &&& item_bounded(it)
                    &&& final(self).order_items@ == old(self).order_items@.push(it)
                    &&& (*final(self) == Store {
                        order_items: final(self).order_items,
                        next_row_id: final(self).next_row_id,
                        ..*old(self)
                    })
                },
                Err(e) => {
                    &&& *final(self) == *old(self)
                    &&& (e.code == ErrorCode::ValidationError <==> !item_bounded(
                        OrderItem {
                            id: 0,
                            order_id,
                            item_type,
                            unit_price_in_cents,
                            quantity,
                            refunded_quantity,
                            ticket_type_id,
                            ticket_instance_id,
                            ticket_pricing_id,
                        },
                    ))
                    &&& (e.code == ErrorCode::InsertError ==> old(self).next_row_id == u64::MAX)
                    &&& (e.code == ErrorCode::ValidationError || e.code == ErrorCode::InsertError)
                },
            },
    {
        let bounded = unit_price_in_cents >= -crate::orders::MAX_UNIT_PRICE_CENTS
            && unit_price_in_cents <= crate::orders::MAX_UNIT_PRICE_CENTS && quantity >= 0
            && quantity <= crate::orders::MAX_ITEM_QUANTITY && refunded_quantity >= 0
            && refunded_quantity <= quantity;
        if !bounded {
            return Err(
                DatabaseError::with_text(
                    ErrorCode::ValidationError,
                    "Order item is outside the accepted bounds",
                ),
            );
        }
        let id = match self.fresh_row_id() {
            Some(v) => v,
            None => {
                return Err(
                    DatabaseError::with_text(
                        ErrorCode::InsertError,
                        "Could not create order item",
                    ),
                );
            },
        };
        let item = OrderItem {
            id,
            order_id,
            item_type,
            unit_price_in_cents,
            quantity,
            refunded_quantity,
            ticket_type_id,
            ticket_instance_id,
            ticket_pricing_id,
        };
        self.order_items.push(item);
        Ok(item)
    }

    /// Records an engagement.
    pub(crate) fn log_interaction(&mut self, organization_id: u64, user_id: u64, at: i64)
        requires
            old(self).wf(),
        ensures
            final(self).wf(),
            final(self).interactions@ == old(self).interactions@.push(
                Interaction { organization_id, user_id, at },
            ),
            (*final(self) == Store { interactions: final(self).interactions, ..*old(self) }),
    {
        self.interactions.push(Interaction { organization_id, user_id, at });
    }
}


/// With unique ids, any two stored rows sharing an id coincide. One such
/// lemma per table the payload builder joins through.
pub proof fn lemma_user_unique(s: Store, u: User)
    requires
        s.wf(),
        s.users@.contains(u),
    ensures
        forall|u2: User| s.users@.contains(u2) && u2.id == u.id ==> u2 == u,
{
    assert forall|u2: User| s.users@.contains(u2) && u2.id == u.id implies u2 == u by {
        let a = choose|a: int| 0 <= a < s.users@.len() && s.users@[a] == u2;
        let b = choose|b: int| 0 <= b < s.users@.len() && s.users@[b] == u;
        if a != b {
            assert(false);
        }
    }
}

pub proof fn lemma_temporary_user_unique(s: Store, u: TemporaryUser)
    requires
        s.wf(),
        s.temporary_users@.contains(u),
    ensures
        forall|u2: TemporaryUser| s.temporary_users@.contains(u2) && u2.id == u.id ==> u2 == u,
{
    assert forall|u2: TemporaryUser| s.temporary_users@.contains(u2) && u2.id == u.id implies u2
        == u by {
        let a = choose|a: int| 0 <= a < s.temporary_users@.len() && s.temporary_users@[a] == u2;
        let b = choose|b: int| 0 <= b < s.temporary_users@.len() && s.temporary_users@[b] == u;
        if a != b {
            assert(false);
        }
    }
}

pub proof fn lemma_push_token_unique(s: Store, t: PushNotificationToken)
    requires
        s.wf(),
        s.push_tokens@.contains(t),
    ensures
        forall|t2: PushNotificationToken| s.push_tokens@.contains(t2) && t2.id == t.id ==> t2 == t,
{
    assert forall|t2: PushNotificationToken| s.push_tokens@.contains(t2) && t2.id == t.id implies t2
        == t by {
        let a = choose|a: int| 0 <= a < s.push_tokens@.len() && s.push_tokens@[a] == t2;
        let b = choose|b: int| 0 <= b < s.push_tokens@.len() && s.push_tokens@[b] == t;
        if a != b {
            assert(false);
        }
    }
}

pub proof fn lemma_show_event_unique(s: Store, e: ShowEvent)
    requires
        s.wf(),
        s.show_events@.contains(e),
    ensures
        forall|e2: ShowEvent| s.show_events@.contains(e2) && e2.id == e.id ==> e2 == e,
{
    assert forall|e2: ShowEvent| s.show_events@.contains(e2) && e2.id == e.id implies e2 == e by {
        let a = choose|a: int| 0 <= a < s.show_events@.len() && s.show_events@[a] == e2;
        let b = choose|b: int| 0 <= b < s.show_events@.len() && s.show_events@[b] == e;
        if a != b {
            assert(false);
        }
    }
}

pub proof fn lemma_ticket_type_unique(s: Store, t: TicketType)
    requires
        s.wf(),
        s.ticket_types@.contains(t),
    ensures
        forall|t2: TicketType| s.ticket_types@.contains(t2) && t2.id == t.id ==> t2 == t,
{
    assert forall|t2: TicketType| s.ticket_types@.contains(t2) && t2.id == t.id implies t2 == t by {
        let a = choose|a: int| 0 <= a < s.ticket_types@.len() && s.ticket_types@[a] == t2;
        let b = choose|b: int| 0 <= b < s.ticket_types@.len() && s.ticket_types@[b] == t;
        if a != b {
            assert(false);
        }
    }
}

pub proof fn lemma_venue_unique(s: Store, v: Venue)
    requires
        s.wf(),
        s.venues@.contains(v),
    ensures
        forall|v2: Venue| s.venues@.contains(v2) && v2.id == v.id ==> v2 == v,
{
    assert forall|v2: Venue| s.venues@.contains(v2) && v2.id == v.id implies v2 == v by {
        let a = choose|a: int| 0 <= a < s.venues@.len() && s.venues@[a] == v2;
        let b = choose|b: int| 0 <= b < s.venues@.len() && s.venues@[b] == v;
        if a != b {
            assert(false);
        }
    }
}

pub proof fn lemma_order_unique(s: Store, o: Order)
    requires
        s.wf(),
        s.orders@.contains(o),
    ensures
        forall|o2: Order| s.orders@.contains(o2) && o2.id == o.id ==> o2 == o,
{
    assert forall|o2: Order| s.orders@.contains(o2) && o2.id == o.id implies o2 == o by {
        let a = choose|a: int| 0 <= a < s.orders@.len() && s.orders@[a] == o2;
        let b = choose|b: int| 0 <= b < s.orders@.len() && s.orders@[b] == o;
        if a != b {
            assert(false);
        }
    }
}

pub proof fn lemma_ticket_instance_unique(s: Store, t: TicketInstance)
    requires
        s.wf(),
        s.ticket_instances@.contains(t),
    ensures
        forall|t2: TicketInstance| s.ticket_instances@.contains(t2) && t2.id == t.id ==> t2 == t,
{
    assert forall|t2: TicketInstance| s.ticket_instances@.contains(t2) && t2.id == t.id implies t2
        == t by {
        let a = choose|a: int| 0 <= a < s.ticket_instances@.len() && s.ticket_instances@[a] == t2;
        let b = choose|b: int| 0 <= b < s.ticket_instances@.len() && s.ticket_instances@[b] == t;
        if a != b {
            assert(false);
        }
    }
}

pub proof fn lemma_transfer_unique(s: Store, t: Transfer)
    requires
        s.wf(),
        s.transfers@.contains(t),
    ensures
        forall|t2: Transfer| s.transfers@.contains(t2) && t2.id == t.id ==> t2 == t,
{
    assert forall|t2: Transfer| s.transfers@.contains(t2) && t2.id == t.id implies t2 == t by {
        let a = choose|a: int| 0 <= a < s.transfers@.len() && s.transfers@[a] == t2;
        let b = choose|b: int| 0 <= b < s.transfers@.len() && s.transfers@[b] == t;
        if a != b {
            assert(false);
        }
    }
}

} // verus!

//! The ticket transfer state machine: pending-to-terminal transitions,
//! the one-pending-transfer-per-ticket rule, and the signed receive
//! authorization a recipient presents to complete a transfer.

use vstd::prelude::*;

use crate::domain_events::DomainEvent;
use crate::enums::DomainEventTypes;
use crate::enums::Tables;
use crate::enums::TransferMessageType;
use crate::enums::TransferStatus;
use crate::errors::DatabaseError;
use crate::errors::ErrorCode;
use crate::lookup::lemma_filter_take_step;
use crate::lookup::lemma_take_all;
use crate::signing::ed25519_signature;
use crate::signing::sign;
use crate::store::has_default_wallet;
use crate::store::has_transfer;
use crate::store::transfer_pending;
use crate::store::Store;
use crate::store::User;
use crate::store::Wallet;
use crate::strutil::clone_opt_string;
use crate::strutil::dec_digits;
use crate::strutil::hex_bytes;
use crate::strutil::hex_of;
use crate::strutil::u64_to_string;

verus! {

/// A ticket transfer from a source user to a destination identity.
#[derive(Debug)]
pub struct Transfer {
    pub id: u64,
    /// Client-facing correlation token, unique across transfers.
    pub transfer_key: u64,
    pub source_user_id: u64,
    /// Set exactly when the transfer completes.
    pub destination_user_id: Option<u64>,
    /// Set when the recipient had no account yet.
    pub destination_temporary_user_id: Option<u64>,
    pub status: TransferStatus,
    /// True when the sender addressed an exact recipient account.
    pub direct: bool,
    pub cancelled_by_user_id: Option<u64>,
    pub transfer_message_type: Option<TransferMessageType>,
    pub transfer_address: Option<String>,
    pub created_at: i64,
}

impl Clone for Transfer {
    fn clone(&self) -> (r: Transfer)
        ensures
            r == *self,
    {
        Transfer {
            id: self.id,
            transfer_key: self.transfer_key,
            source_user_id: self.source_user_id,
            destination_user_id: self.destination_user_id,
            destination_temporary_user_id: self.destination_temporary_user_id,
            status: self.status,
            direct: self.direct,
            cancelled_by_user_id: self.cancelled_by_user_id,
            transfer_message_type: self.transfer_message_type,
            transfer_address: clone_opt_string(&self.transfer_address),
            created_at: self.created_at,
        }
    }
}

/// A transfer prepared but not yet committed.
pub struct NewTransfer {
    pub source_user_id: u64,
    pub transfer_key: u64,
    pub transfer_message_type: Option<TransferMessageType>,
    pub transfer_address: Option<String>,
    pub direct: bool,
}

/// One ticket bound to a transfer.
#[derive(Clone, Copy, Debug, PartialEq, Eq, Structural)]
pub struct TransferTicket {
    pub transfer_id: u64,
    pub ticket_instance_id: u64,
}

/// The machine-readable receive authorization: what the URL carries, as
/// a record for programmatic receivers.
#[derive(Debug)]
pub struct TransferAuthorization {
    pub transfer_key: u64,
    pub sender_user_id: u64,
    pub num_tickets: u64,
    pub signature: String,
}

impl PartialEq for TransferAuthorization {
    fn eq(&self, other: &TransferAuthorization) -> (r: bool) {
        self.transfer_key == other.transfer_key && self.sender_user_id == other.sender_user_id
            && self.num_tickets == other.num_tickets && self.signature == other.signature
    }
}

impl vstd::std_specs::cmp::PartialEqSpecImpl for TransferAuthorization {
    open spec fn obeys_eq_spec() -> bool {
        true
    }

    open spec fn eq_spec(&self, other: &TransferAuthorization) -> bool {
        &&& self.transfer_key == other.transfer_key
        &&& self.sender_user_id == other.sender_user_id
        &&& self.num_tickets == other.num_tickets
        &&& self.signature@ == other.signature@
    }
}


impl PartialEq for Transfer {
    fn eq(&self, other: &Transfer) -> (r: bool) {
        self.id == other.id && self.transfer_key == other.transfer_key && self.source_user_id
            == other.source_user_id && (match (self.destination_user_id, other.destination_user_id) {
            (Some(a), Some(b)) => a == b,
            (None, None) => true,
            _ => false,
        }) && (match (self.destination_temporary_user_id, other.destination_temporary_user_id) {
            (Some(a), Some(b)) => a == b,
            (None, None) => true,
            _ => false,
        }) && self.status == other.status && self.direct == other.direct && (match (
            self.cancelled_by_user_id,
            other.cancelled_by_user_id,
        ) {
            (Some(a), Some(b)) => a == b,
            (None, None) => true,
            _ => false,
        }) && (match (self.transfer_message_type, other.transfer_message_type) {
            (Some(a), Some(b)) => a == b,
            (None, None) => true,
            _ => false,
        }) && (match (&self.transfer_address, &other.transfer_address) {
            (Some(a), Some(b)) => *a == *b,
            (None, None) => true,
            _ => false,
        }) && self.created_at == other.created_at
    }
}

impl vstd::std_specs::cmp::PartialEqSpecImpl for Transfer {
    open spec fn obeys_eq_spec() -> bool {
        true
    }

    open spec fn eq_spec(&self, other: &Transfer) -> bool {
        &&& self.id == other.id
        &&& self.transfer_key == other.transfer_key
        &&& self.source_user_id == other.source_user_id
        &&& self.destination_user_id == other.destination_user_id
        &&& self.destination_temporary_user_id == other.destination_temporary_user_id
        &&& self.status == other.status
        &&& self.direct == other.direct
        &&& self.cancelled_by_user_id == other.cancelled_by_user_id
        &&& self.transfer_message_type == other.transfer_message_type
        &&& (match (self.transfer_address, other.transfer_address) {
            (Some(a), Some(b)) => a@ == b@,
            (None, None) => true,
            _ => false,
        })
        &&& self.created_at == other.created_at
    }
}

/// A ticket instance never sits in two distinct transfers that are both
/// pending: any two pending bindings of one ticket name the same
/// transfer. This holds in every well-formed store; `add_transfer_ticket`
/// maintains it by rejecting a second pending binding with an integrity
/// error.
pub proof fn lemma_ticket_in_one_pending_transfer(store: Store, i: int, j: int)
    requires
        store.wf(),
        0 <= i < store.transfer_tickets@.len(),
        0 <= j < store.transfer_tickets@.len(),
        store.transfer_tickets@[i].ticket_instance_id
            == store.transfer_tickets@[j].ticket_instance_id,
        transfer_pending(store.transfers@, store.transfer_tickets@[i].transfer_id),
        transfer_pending(store.transfers@, store.transfer_tickets@[j].transfer_id),
    ensures
        store.transfer_tickets@[i].transfer_id == store.transfer_tickets@[j].transfer_id,
{
    if i < j {
    } else if j < i {
    }
}

/// The predicate selecting the ticket rows of one transfer.
pub open spec fn ticket_of_transfer(transfer_id: u64) -> spec_fn(TransferTicket) -> bool {
    |tt: TransferTicket| tt.transfer_id == transfer_id
}

/// The predicate selecting pending transfers.
pub open spec fn is_pending_transfer() -> spec_fn(Transfer) -> bool {
    |t: Transfer| t.status == TransferStatus::Pending
}

/// The message the signature engine signs for a transfer: the canonical
/// decimal texts of the transfer key, the source user and the live
/// ticket count, concatenated in that order.
pub open spec fn transfer_message(transfer_key: u64, source_user_id: u64, count: nat) -> Seq<
    char,
> {
    dec_digits(transfer_key as nat) + dec_digits(source_user_id as nat) + dec_digits(count)
}

/// The hex signature the engine produces for a transfer signed with the
/// given wallet.
pub open spec fn transfer_signature(t: Transfer, count: nat, wallet: Wallet) -> Seq<char> {
    hex_of(
        ed25519_signature(
            transfer_message(t.transfer_key, t.source_user_id, count),
            hex_bytes(wallet.secret_key@),
        ),
    )
}

/// The number of tickets attached to the transfer in the given store.
pub open spec fn spec_ticket_count(store: Store, transfer_id: u64) -> nat {
    store.transfer_tickets@.filter(ticket_of_transfer(transfer_id)).len()
}

/// Whether `w` is the default wallet of `user_id` in the store.
pub open spec fn default_wallet_of(store: Store, user_id: u64, w: Wallet) -> bool {
    store.wallets@.contains(w) && w.user_id == user_id && w.is_default
}

/// What a state transition appends to the event log.
pub open spec fn transition_event(
    ev: DomainEvent,
    event_type: DomainEventTypes,
    transfer_id: u64,
    user_id: Option<u64>,
    text: Seq<char>,
    reason: Option<String>,
    seq: u64,
    at: i64,
) -> bool {
    &&& ev.event_type == event_type
    &&& ev.main_table == Tables::Transfers
    &&& ev.main_id == Some(transfer_id)
    &&& ev.user_id == user_id
    &&& ev.display_text@ == text
    &&& ev.event_data == reason
    &&& ev.organization_id is None
    &&& ev.seq == seq
    &&& ev.id == seq
    &&& ev.created_at == at
}

impl Transfer {
    /// Prepares a pending transfer.
    pub fn create(
        source_user_id: u64,
        transfer_key: u64,
        transfer_message_type: Option<TransferMessageType>,
        transfer_address: Option<String>,
        direct: bool,
    ) -> (r: NewTransfer)
        ensures
            r.source_user_id == source_user_id,
            r.transfer_key == transfer_key,
            r.transfer_message_type == transfer_message_type,
            r.transfer_address == transfer_address,
            r.direct == direct,
    {
        NewTransfer { source_user_id, transfer_key, transfer_message_type, transfer_address, direct }
    }

    /// Finds a transfer by id; errors when it does not exist.
    pub fn find(id: u64, store: &Store) -> (r: Result<Transfer, DatabaseError>)
        ensures
            match r {
                Ok(t) => t.id == id && store.transfers@.contains(t),
                Err(e) => e.code == ErrorCode::QueryError && !has_transfer(*store, id),
            },
    {
        let mut i: usize = 0;
        while i < store.transfers.len()
            invariant
                i <= store.transfers@.len(),
                forall|j: int| 0 <= j < i ==> (#[trigger] store.transfers@[j]).id != id,
            decreases store.transfers@.len() - i,
        {
            if store.transfers[i].id == id {
                return Ok(store.transfers[i].clone());
            }
            i = i + 1;
        }
        Err(DatabaseError::with_text(ErrorCode::QueryError, "Error loading transfer"))
    }

    /// Finds a transfer by its correlation key; errors when none carries
    /// it.
    pub fn find_by_transfer_key(transfer_key: u64, store: &Store) -> (r: Result<
        Transfer,
        DatabaseError,
    >)
        ensures
            match r {
                Ok(t) => t.transfer_key == transfer_key && store.transfers@.contains(t),
                Err(e) => e.code == ErrorCode::QueryError && !exists|i: int|
                    0 <= i < store.transfers@.len() && (#[trigger] store.transfers@[i]).transfer_key
                        == transfer_key,
            },
    {
        let mut i: usize = 0;
        while i < store.transfers.len()
            invariant
                i <= store.transfers@.len(),
                forall|j: int|
                    0 <= j < i ==> (#[trigger] store.transfers@[j]).transfer_key != transfer_key,
            decreases store.transfers@.len() - i,
        {
            if store.transfers[i].transfer_key == transfer_key {
                return Ok(store.transfers[i].clone());
            }
            i = i + 1;
        }
        Err(DatabaseError::with_text(ErrorCode::QueryError, "Error loading transfer"))
    }

    /// All pending transfers, in insertion order.
    pub fn find_pending(store: &Store) -> (r: Vec<Transfer>)
        ensures
            r@ == store.transfers@.filter(is_pending_transfer()),
    {
        let ghost pred = is_pending_transfer();
        let mut r: Vec<Transfer> = Vec::new();
        let mut i: usize = 0;
        while i < store.transfers.len()
            invariant
                pred == is_pending_transfer(),
                i <= store.transfers@.len(),
                r@ == store.transfers@.take(i as int).filter(pred),
            decreases store.transfers@.len() - i,
        {
            let t = &store.transfers[i];
            let hit = t.status == TransferStatus::Pending;
            if hit {
                let copy = t.clone();
                r.push(copy);
            }
            i = i + 1;
            proof {
                lemma_filter_take_step(store.transfers@, pred, i - 1);
            }
        }
        proof {
            lemma_take_all(store.transfers@);
        }
        r
    }

    /// The ticket rows of this transfer, in insertion order.
    pub fn transfer_tickets(&self, store: &Store) -> (r: Vec<TransferTicket>)
        ensures
            r@ == store.transfer_tickets@.filter(ticket_of_transfer(self.id)),
    {
        let ghost pred = ticket_of_transfer(self.id);
        let mut r: Vec<TransferTicket> = Vec::new();
        let mut i: usize = 0;
        while i < store.transfer_tickets.len()
            invariant
                pred == ticket_of_transfer(self.id),
                i <= store.transfer_tickets@.len(),
                r@ == store.transfer_tickets@.take(i as int).filter(pred),
            decreases store.transfer_tickets@.len() - i,
        {
            let tt = &store.transfer_tickets[i];
            if tt.transfer_id == self.id {
                r.push(*tt);
            }
            i = i + 1;
            proof {
                lemma_filter_take_step(store.transfer_tickets@, pred, i - 1);
            }
        }
        proof {
            lemma_take_all(store.transfer_tickets@);
        }
        r
    }

    /// How many tickets are attached right now.
    pub fn transfer_ticket_count(&self, store: &Store) -> (r: u64)
        ensures
            r == spec_ticket_count(*store, self.id),
    {
        let ghost pred = ticket_of_transfer(self.id);
        let mut count: u64 = 0;
        let mut i: usize = 0;
        while i < store.transfer_tickets.len()
            invariant
                pred == ticket_of_transfer(self.id),
                i <= store.transfer_tickets@.len(),
                count == store.transfer_tickets@.take(i as int).filter(pred).len(),
                count <= i,
            decreases store.transfer_tickets@.len() - i,
        {
            let tt = &store.transfer_tickets[i];
            if tt.transfer_id == self.id {
                count = count + 1;
            }
            i = i + 1;
            proof {
                lemma_filter_take_step(store.transfer_tickets@, pred, i - 1);
            }
        }
        proof {
            lemma_take_all(store.transfer_tickets@);
        }
        count
    }

    /// Binds a ticket to this transfer. Re-adding the same pair is
    /// allowed and returns the existing row; a ticket held by another
    /// pending transfer is rejected with an integrity error, which is
    /// what keeps a ticket out of two simultaneously pending transfers.
    pub fn add_transfer_ticket(&self, ticket_instance_id: u64, store: &mut Store) -> (r: Result<
        TransferTicket,
        DatabaseError,
    >)
        requires
            old(store).wf(),
        ensures
            final(store).wf(),
            match r {
                Ok(tt) => {
                    &&& tt.transfer_id == self.id
                    &&& tt.ticket_instance_id == ticket_instance_id
                    &&& final(store).transfer_tickets@.contains(tt)
                    &&& (*final(store) == Store {
                        transfer_tickets: final(store).transfer_tickets,
                        ..*old(store)
                    })
                    &&& (old(store).transfer_tickets@.contains(tt) && *final(store) == *old(store)
                        || final(store).transfer_tickets@ == old(store).transfer_tickets@.push(tt))
                },
                Err(e) => {
                    &&& *final(store) == *old(store)
                    &&& (e.code == ErrorCode::QueryError ==> !has_transfer(*old(store), self.id))
                    &&& (e.code == ErrorCode::BusinessProcessError ==> exists|j: int|
                        0 <= j < old(store).transfer_tickets@.len() && (#[trigger] old(
                            store,
                        ).transfer_tickets@[j]).ticket_instance_id == ticket_instance_id && old(
                            store,
                        ).transfer_tickets@[j].transfer_id != self.id && transfer_pending(
                            old(store).transfers@,
                            old(store).transfer_tickets@[j].transfer_id,
                        ))
                    &&& (e.code == ErrorCode::QueryError || e.code
                        == ErrorCode::BusinessProcessError)
                },
            },
            r is Err <==> (!has_transfer(*old(store), self.id) || ((exists|j: int|
                0 <= j < old(store).transfer_tickets@.len() && (#[trigger] old(
                    store,
                ).transfer_tickets@[j]).ticket_instance_id == ticket_instance_id && old(
                    store,
                ).transfer_tickets@[j].transfer_id != self.id && transfer_pending(
                    old(store).transfers@,
                    old(store).transfer_tickets@[j].transfer_id,
                )) && !old(store).transfer_tickets@.contains(
                TransferTicket { transfer_id: self.id, ticket_instance_id },
            ))),
    {
        let own = TransferTicket { transfer_id: self.id, ticket_instance_id };
        // the transfer itself must exist (its row id also bounds the
        // binding row, keeping the store's reference invariant)
        let mut t: usize = 0;
        let mut transfer_found = false;
        while t < store.transfers.len()
            invariant
                old(store).wf(),
                *store == *old(store),
                t <= store.transfers@.len(),
                transfer_found == exists|j: int|
                    0 <= j < t && (#[trigger] store.transfers@[j]).id == self.id,
            decreases store.transfers@.len() - t,
        {
            let hit = store.transfers[t].id == self.id;
            if hit {
                transfer_found = true;
            }
            t = t + 1;
        }
        if !transfer_found {
            return Err(DatabaseError::with_text(ErrorCode::QueryError, "Error loading transfer"));
        }
        // idempotent re-add of the same pair
        let mut i: usize = 0;
        while i < store.transfer_tickets.len()
            invariant
                old(store).wf(),
                *store == *old(store),
                has_transfer(*old(store), self.id),
                i <= store.transfer_tickets@.len(),
                forall|j: int| 0 <= j < i ==> #[trigger] store.transfer_tickets@[j] != own,
                own == (TransferTicket { transfer_id: self.id, ticket_instance_id }),
            decreases store.transfer_tickets@.len() - i,
        {
            let tt = store.transfer_tickets[i];
            if tt.transfer_id == self.id && tt.ticket_instance_id == ticket_instance_id {
                return Ok(tt);
            }
            i = i + 1;
        }
        // reject a ticket held by another pending transfer
        let mut j: usize = 0;
        while j < store.transfer_tickets.len()
            invariant
                old(store).wf(),
                *store == *old(store),
                has_transfer(*old(store), self.id),
                j <= store.transfer_tickets@.len(),
                forall|k: int|
                    0 <= k < j ==> !((#[trigger] store.transfer_tickets@[k]).ticket_instance_id
                        == ticket_instance_id && store.transfer_tickets@[k].transfer_id != self.id
                        && transfer_pending(
                        store.transfers@,
                        store.transfer_tickets@[k].transfer_id,
                    )),
                forall|k: int|
                    0 <= k < store.transfer_tickets@.len() ==> #[trigger] store.transfer_tickets@[k]
                        != own,
                own == (TransferTicket { transfer_id: self.id, ticket_instance_id }),
            decreases store.transfer_tickets@.len() - j,
        {
            let tt = store.transfer_tickets[j];
            if tt.ticket_instance_id == ticket_instance_id && tt.transfer_id != self.id {
                let pending = is_transfer_pending(tt.transfer_id, store);
                if pending {
                    return Err(
                        DatabaseError::with_text(
                            ErrorCode::BusinessProcessError,
                            "Ticket is already in a pending transfer",
                        ),
                    );
                }
            }
            j = j + 1;
        }
        store.transfer_tickets.push(own);
        proof {
            assert(store.transfer_tickets@.last() == own);
            assert(own.transfer_id < store.next_row_id) by {
                let w = choose|w: int|
                    0 <= w < store.transfers@.len() && (#[trigger] store.transfers@[w]).id
                        == self.id;
            }
            assert forall|a: int, b: int|
                0 <= a < b < store.transfer_tickets@.len() implies !((
            #[trigger] store.transfer_tickets@[a]).transfer_id == (
            #[trigger] store.transfer_tickets@[b]).transfer_id
                && store.transfer_tickets@[a].ticket_instance_id
                == store.transfer_tickets@[b].ticket_instance_id) by {
                if b == store.transfer_tickets@.len() - 1 {
                    assert(store.transfer_tickets@[a] == old(store).transfer_tickets@[a]);
                }
            }
            assert forall|a: int, b: int|
                0 <= a < b < store.transfer_tickets@.len() && (
            #[trigger] store.transfer_tickets@[a]).ticket_instance_id == (
            #[trigger] store.transfer_tickets@[b]).ticket_instance_id && transfer_pending(
                store.transfers@,
                store.transfer_tickets@[a].transfer_id,
            ) && transfer_pending(
                store.transfers@,
                store.transfer_tickets@[b].transfer_id,
            ) implies store.transfer_tickets@[a].transfer_id
                == store.transfer_tickets@[b].transfer_id by {
                if b == store.transfer_tickets@.len() - 1 {
                    assert(store.transfer_tickets@[a] == old(store).transfer_tickets@[a]);
                    if store.transfer_tickets@[a].transfer_id != self.id {
                        assert(false);
                    }
                }
            }
            assert(store.wf());
        }
        Ok(own)
    }

    /// Cancels a pending transfer: records who cancelled, and appends
    /// the cancellation event in the same mutation. A transfer that is
    /// no longer pending is left unchanged and reported.
    pub fn cancel(&self, cancelled_by_user_id: u64, reason: Option<String>, now: i64, store:
        &mut Store) -> (r: Result<Transfer, DatabaseError>)
        requires
            old(store).wf(),
        ensures
            final(store).wf(),
            r is Ok <==> (transfer_pending(old(store).transfers@, self.id) && old(store).next_seq
                < u64::MAX),
            match r {
                Ok(t) => {
                    &&& t.status == TransferStatus::Cancelled
                    &&& t.cancelled_by_user_id == Some(cancelled_by_user_id)
                    &&& t.id == self.id
                    &&& exists|i: int|
                        0 <= i < old(store).transfers@.len() && (#[trigger] old(
                            store,
                        ).transfers@[i]).id == self.id && old(store).transfers@[i].status
                            == TransferStatus::Pending && t == (Transfer {
                            status: TransferStatus::Cancelled,
                            cancelled_by_user_id: Some(cancelled_by_user_id),
                            ..old(store).transfers@[i]
                        }) && final(store).transfers@ == old(store).transfers@.update(i, t)
                    &&& final(store).domain_events@.len() == old(store).domain_events@.len() + 1
                    &&& final(store).domain_events@ == old(store).domain_events@.push(
                        final(store).domain_events@.last(),
                    )
                    &&& transition_event(
                        final(store).domain_events@.last(),
                        DomainEventTypes::TransferTicketCancelled,
                        self.id,
                        Some(cancelled_by_user_id),
                        "Transfer was cancelled"@,
                        reason,
                        old(store).next_seq,
                        crate::domain_events::commit_created_at(*old(store), now),
                    )
                    &&& final(store).next_seq == old(store).next_seq + 1
                    &&& (*final(store) == Store {
                        transfers: final(store).transfers,
                        domain_events: final(store).domain_events,
                        next_seq: final(store).next_seq,
                        interactions: final(store).interactions,
                        ..*old(store)
                    })
                    &&& crate::interactions::interactions_logged(
                        final(store).domain_events@.last(),
                        old(store).interactions@,
                        final(store).interactions@,
                        *final(store),
                        now,
                    )
                },
                Err(e) => {
                    &&& *final(store) == *old(store)
                    &&& (e.code == ErrorCode::QueryError ==> !has_transfer(*old(store), self.id))
                    &&& (e.code == ErrorCode::UpdateError ==> e.is_text(
                        ErrorCode::UpdateError,
                        "Transfer cannot be cancelled as it is no longer pending"@,
                    ) && has_transfer(*old(store), self.id) && !transfer_pending(
                        old(store).transfers@,
                        self.id,
                    ))
                    &&& (e.code == ErrorCode::InsertError ==> old(store).next_seq == u64::MAX)
                    &&& (e.code == ErrorCode::QueryError || e.code == ErrorCode::UpdateError
                        || e.code == ErrorCode::InsertError)
                },
            },
    {
        if store.next_seq == u64::MAX {
            return Err(
                DatabaseError::with_text(ErrorCode::InsertError, "Could not insert domain event"),
            );
        }
        let n = store.transfers.len();
        let mut i: usize = 0;
        while i < n
            invariant
                old(store).wf(),
                old(store).next_seq < u64::MAX,
                *store == *old(store),
                n == store.transfers@.len(),
                i <= n,
                forall|j: int| 0 <= j < i ==> (#[trigger] store.transfers@[j]).id != self.id,
            decreases n - i,
        {
            let hit = store.transfers[i].id == self.id;
            if hit {
                // re-read the status inside the mutation: a stale caller
                // must not cancel twice
                let still_pending = store.transfers[i].status == TransferStatus::Pending;
                if !still_pending {
                    proof {
                        assert(!transfer_pending(store.transfers@, self.id)) by {
                            if transfer_pending(store.transfers@, self.id) {
                                let w = choose|w: int|
                                    0 <= w < store.transfers@.len() && (
                                    #[trigger] store.transfers@[w]).id == self.id
                                        && store.transfers@[w].status == TransferStatus::Pending;
                            }
                        }
                    }
                    return Err(
                        DatabaseError::with_text(
                            ErrorCode::UpdateError,
                            "Transfer cannot be cancelled as it is no longer pending",
                        ),
                    );
                }
                proof {
                    assert(transfer_pending(store.transfers@, self.id));
                }
                let updated = Transfer {
                    status: TransferStatus::Cancelled,
                    cancelled_by_user_id: Some(cancelled_by_user_id),
                    ..store.transfers[i].clone()
                };
                let result = updated.clone();
                let ghost up = updated;
                let ghost transfers0 = store.transfers@;
                let slot = vstd::std_specs::vec::vec_index_mut(&mut store.transfers, i);
                *slot = updated;
                proof {
                    assert(store.transfers@ == transfers0.update(i as int, up));
                    lemma_transition_keeps_wf(*old(store), *store, i as int, up);
                }
                let event = DomainEvent::create(
                    DomainEventTypes::TransferTicketCancelled,
                    String::from_str("Transfer was cancelled"),
                    Tables::Transfers,
                    Some(self.id),
                    Some(cancelled_by_user_id),
                    reason,
                );
                let ghost mid = *store;
                match event.commit(now, store) {
                    Ok(committed) => {
                        proof {
                            crate::interactions::lemma_interactions_logged_same_tables(
                                committed,
                                mid.interactions@,
                                store.interactions@,
                                mid,
                                *store,
                                now,
                            );
                        }
                    },
                    Err(e) => {
                        proof {
                            assert(false);
                        }
                        return Err(e);
                    },
                }
                return Ok(result);
            }
            i = i + 1;
        }
        Err(DatabaseError::with_text(ErrorCode::QueryError, "Error loading transfer"))
    }

    /// Completes a pending transfer: records the destination account,
    /// and appends the completion event in the same mutation. A transfer
    /// that is no longer pending is left unchanged and reported.
    pub fn complete(&self, destination_user_id: u64, reason: Option<String>, now: i64, store:
        &mut Store) -> (r: Result<Transfer, DatabaseError>)
        requires
            old(store).wf(),
        ensures
            final(store).wf(),
            r is Ok <==> (transfer_pending(old(store).transfers@, self.id) && old(store).next_seq
                < u64::MAX),
            match r {
                Ok(t) => {
                    &&& t.status == TransferStatus::Completed
                    &&& t.destination_user_id == Some(destination_user_id)
                    &&& t.id == self.id
                    &&& exists|i: int|
                        0 <= i < old(store).transfers@.len() && (#[trigger] old(
                            store,
                        ).transfers@[i]).id == self.id && old(store).transfers@[i].status
                            == TransferStatus::Pending && t == (Transfer {
                            status: TransferStatus::Completed,
                            destination_user_id: Some(destination_user_id),
                            ..old(store).transfers@[i]
                        }) && final(store).transfers@ == old(store).transfers@.update(i, t)
                    &&& final(store).domain_events@.len() == old(store).domain_events@.len() + 1
                    &&& final(store).domain_events@ == old(store).domain_events@.push(
                        final(store).domain_events@.last(),
                    )
                    &&& transition_event(
                        final(store).domain_events@.last(),
                        DomainEventTypes::TransferTicketCompleted,
                        self.id,
                        Some(destination_user_id),
                        "Transfer was completed"@,
                        reason,
                        old(store).next_seq,
                        crate::domain_events::commit_created_at(*old(store), now),
                    )
                    &&& final(store).next_seq == old(store).next_seq + 1
                    &&& (*final(store) == Store {
                        transfers: final(store).transfers,
                        domain_events: final(store).domain_events,
                        next_seq: final(store).next_seq,
                        interactions: final(store).interactions,
                        ..*old(store)
                    })
                    &&& crate::interactions::interactions_logged(
                        final(store).domain_events@.last(),
                        old(store).interactions@,
                        final(store).interactions@,
                        *final(store),
                        now,
                    )
                },
                Err(e) => {
                    &&& *final(store) == *old(store)
                    &&& (e.code == ErrorCode::QueryError ==> !has_transfer(*old(store), self.id))
                    &&& (e.code == ErrorCode::UpdateError ==> e.is_text(
                        ErrorCode::UpdateError,
                        "Transfer cannot be completed as it is no longer pending"@,
                    ) && has_transfer(*old(store), self.id) && !transfer_pending(
                        old(store).transfers@,
                        self.id,
                    ))
                    &&& (e.code == ErrorCode::InsertError ==> old(store).next_seq == u64::MAX)
                    &&& (e.code == ErrorCode::QueryError || e.code == ErrorCode::UpdateError
                        || e.code == ErrorCode::InsertError)
                },
            },
    {
        if store.next_seq == u64::MAX {
            return Err(
                DatabaseError::with_text(ErrorCode::InsertError, "Could not insert domain event"),
            );
        }
        let n = store.transfers.len();
        let mut i: usize = 0;
        while i < n
            invariant
                old(store).wf(),
                old(store).next_seq < u64::MAX,
                *store == *old(store),
                n == store.transfers@.len(),
                i <= n,
                forall|j: int| 0 <= j < i ==> (#[trigger] store.transfers@[j]).id != self.id,
            decreases n - i,
        {
            let hit = store.transfers[i].id == self.id;
            if hit {
                let still_pending = store.transfers[i].status == TransferStatus::Pending;
                if !still_pending {
                    proof {
                        assert(!transfer_pending(store.transfers@, self.id)) by {
                            if transfer_pending(store.transfers@, self.id) {
                                let w = choose|w: int|
                                    0 <= w < store.transfers@.len() && (
                                    #[trigger] store.transfers@[w]).id == self.id
                                        && store.transfers@[w].status == TransferStatus::Pending;
                            }
                        }
                    }
                    return Err(
                        DatabaseError::with_text(
                            ErrorCode::UpdateError,
                            "Transfer cannot be completed as it is no longer pending",
                        ),
                    );
                }
                proof {
                    assert(transfer_pending(store.transfers@, self.id));
                }
                let updated = Transfer {
                    status: TransferStatus::Completed,
                    destination_user_id: Some(destination_user_id),
                    ..store.transfers[i].clone()
                };
                let result = updated.clone();
                let ghost up = updated;
                let ghost transfers0 = store.transfers@;
                let slot = vstd::std_specs::vec::vec_index_mut(&mut store.transfers, i);
                *slot = updated;
                proof {
                    assert(store.transfers@ == transfers0.update(i as int, up));
                    lemma_transition_keeps_wf(*old(store), *store, i as int, up);
                }
                let event = DomainEvent::create(
                    DomainEventTypes::TransferTicketCompleted,
                    String::from_str("Transfer was completed"),
                    Tables::Transfers,
                    Some(self.id),
                    Some(destination_user_id),
                    reason,
                );
                let ghost mid = *store;
                match event.commit(now, store) {
                    Ok(committed) => {
                        proof {
                            crate::interactions::lemma_interactions_logged_same_tables(
                                committed,
                                mid.interactions@,
                                store.interactions@,
                                mid,
                                *store,
                                now,
                            );
                        }
                    },
                    Err(e) => {
                        proof {
                            assert(false);
                        }
                        return Err(e);
                    },
                }
                return Ok(result);
            }
            i = i + 1;
        }
        Err(DatabaseError::with_text(ErrorCode::QueryError, "Error loading transfer"))
    }

    /// The deterministic signature binding this transfer's key, sender
    /// and live ticket count to the sender's default wallet. Recomputed
    /// from the current ticket count on every call, never cached: any
    /// change to the count invalidates an earlier signature.
    pub fn signature(&self, store: &Store) -> (r: Result<String, DatabaseError>)
        requires
            store.wf(),
        ensures
            r is Ok <==> has_default_wallet(*store, self.source_user_id),
            r matches Ok(s) ==> forall|w: Wallet|
                default_wallet_of(*store, self.source_user_id, w) ==> s@ == transfer_signature(
                    *self,
                    spec_ticket_count(*store, self.id),
                    w,
                ),
            r matches Err(e) ==> e.code == ErrorCode::NoResults,
    {
        let wallet = match store.find_default_wallet(self.source_user_id) {
            Some(w) => w,
            None => {
                return Err(
                    DatabaseError::with_text(ErrorCode::NoResults, "No default wallet for user"),
                );
            },
        };
        let count = self.transfer_ticket_count(store);
        let mut message = u64_to_string(self.transfer_key);
        let src_text = u64_to_string(self.source_user_id);
        message.append(src_text.as_str());
        let count_text = u64_to_string(count);
        message.append(count_text.as_str());
        proof {
            assert(message@ == transfer_message(
                self.transfer_key,
                self.source_user_id,
                spec_ticket_count(*store, self.id),
            ));
            assert(crate::signing::is_key_hex(wallet.secret_key@)) by {
                let a = choose|a: int|
                    0 <= a < store.wallets@.len() && store.wallets@[a] == *wallet;
            }
        }
        let sig = match sign(message.as_str(), wallet.secret_key.as_str()) {
            Ok(s) => s,
            Err(e) => {
                proof {
                    assert(false);
                }
                return Err(DatabaseError::with_text(ErrorCode::NoResults, "No default wallet"));
            },
        };
        proof {
            lemma_default_wallet_unique(*store, self.source_user_id, *wallet);
        }
        Ok(sig)
    }

    /// The receive URL: the recipient's sole proof artifact, carrying the
    /// sender, the correlation key, the live ticket count and the
    /// signature over exactly those values, in that order.
    pub fn receive_url(&self, front_end_url: &str, store: &Store) -> (r: Result<
        String,
        DatabaseError,
    >)
        requires
            store.wf(),
        ensures
            r is Ok <==> has_default_wallet(*store, self.source_user_id),
            r matches Ok(u) ==> forall|w: Wallet|
                default_wallet_of(*store, self.source_user_id, w) ==> u@ == spec_receive_url(
                    front_end_url@,
                    self.transfer_key,
                    self.source_user_id,
                    spec_ticket_count(*store, self.id),
                    transfer_signature(*self, spec_ticket_count(*store, self.id), w),
                ),
            r matches Err(e) ==> e.code == ErrorCode::NoResults,
    {
        let signature = match self.signature(store) {
            Ok(s) => s,
            Err(e) => {
                return Err(e);
            },
        };
        let count = self.transfer_ticket_count(store);
        let mut url = front_end_url.to_owned();
        url.append("/tickets/transfers/receive?sender_user_id=");
        let src_text = u64_to_string(self.source_user_id);
        url.append(src_text.as_str());
        url.append("&transfer_key=");
        let key_text = u64_to_string(self.transfer_key);
        url.append(key_text.as_str());
        url.append("&num_tickets=");
        let count_text = u64_to_string(count);
        url.append(count_text.as_str());
        url.append("&signature=");
        url.append(signature.as_str());
        Ok(url)
    }

    /// The machine-readable counterpart of the receive URL.
    pub fn into_authorization(&self, store: &Store) -> (r: Result<
        TransferAuthorization,
        DatabaseError,
    >)
        requires
            store.wf(),
        ensures
            r is Ok <==> has_default_wallet(*store, self.source_user_id),
            r matches Ok(a) ==> {
                &&& a.transfer_key == self.transfer_key
                &&& a.sender_user_id == self.source_user_id
                &&& a.num_tickets == spec_ticket_count(*store, self.id)
                &&& forall|w: Wallet|
                    default_wallet_of(*store, self.source_user_id, w)
                        ==> a.signature@ == transfer_signature(
                        *self,
                        spec_ticket_count(*store, self.id),
                        w,
                    )
            },
            r matches Err(e) ==> e.code == ErrorCode::NoResults,
    {
        let signature = match self.signature(store) {
            Ok(s) => s,
            Err(e) => {
                return Err(e);
            },
        };
        let num_tickets = self.transfer_ticket_count(store);
        Ok(
            TransferAuthorization {
                transfer_key: self.transfer_key,
                sender_user_id: self.source_user_id,
                num_tickets,
                signature,
            },
        )
    }

    /// Applies editable attributes and writes the row back. The status
    /// may only stay as it is or move from pending to cancelled: the
    /// one-way lifecycle is kept, and a completion must go through
    /// `complete`, which records the destination.
    pub fn update(&self, attributes: &TransferEditableAttributes, store: &mut Store) -> (r:
        Result<Transfer, DatabaseError>)
        requires
            old(store).wf(),
        ensures
            final(store).wf(),
            r is Ok <==> (has_transfer(*old(store), self.id) && forall|t: Transfer|
                old(store).transfers@.contains(t) && t.id == self.id ==> update_status_ok(
                    t.status,
                    attributes.status,
                )),
            match r {
                Ok(t) => {
                    &&& t.id == self.id
                    &&& exists|i: int|
                        0 <= i < old(store).transfers@.len() && (#[trigger] old(
                            store,
                        ).transfers@[i]).id == self.id && t == (Transfer {
                            status: attributes.status.unwrap_or(old(store).transfers@[i].status),
                            transfer_message_type: (match attributes.transfer_message_type {
                                Some(m) => Some(m),
                                None => old(store).transfers@[i].transfer_message_type,
                            }),
                            transfer_address: (match attributes.transfer_address {
                                Some(a) => Some(a),
                                None => old(store).transfers@[i].transfer_address,
                            }),
                            ..old(store).transfers@[i]
                        }) && final(store).transfers@ == old(store).transfers@.update(i, t) && (
                        attributes.status.unwrap_or(old(store).transfers@[i].status) == old(
                            store,
                        ).transfers@[i].status || old(store).transfers@[i].status
                            == TransferStatus::Pending)
                    &&& (*final(store) == Store {
                        transfers: final(store).transfers,
                        ..*old(store)
                    })
                },
                Err(e) => {
                    &&& *final(store) == *old(store)
                    &&& (e.code == ErrorCode::QueryError ==> !has_transfer(*old(store), self.id))
                    &&& (e.code == ErrorCode::QueryError || e.code == ErrorCode::UpdateError)
                },
            },
    {
        let n = store.transfers.len();
        let mut i: usize = 0;
        while i < n
            invariant
                old(store).wf(),
                *store == *old(store),
                n == store.transfers@.len(),
                i <= n,
                forall|j: int| 0 <= j < i ==> (#[trigger] store.transfers@[j]).id != self.id,
            decreases n - i,
        {
            let hit = store.transfers[i].id == self.id;
            if hit {
                let current_status = store.transfers[i].status;
                let new_status = match attributes.status {
                    Some(v) => v,
                    None => current_status,
                };
                let status_ok = new_status == current_status || (current_status
                    == TransferStatus::Pending && new_status == TransferStatus::Cancelled);
                if !status_ok {
                    proof {
                        assert(store.transfers@.contains(store.transfers@[i as int]));
                        assert(!update_status_ok(
                            store.transfers@[i as int].status,
                            attributes.status,
                        ));
                    }
                    return Err(
                        DatabaseError::with_text(
                            ErrorCode::UpdateError,
                            "Transfer status can only move from pending to a terminal state",
                        ),
                    );
                }
                proof {
                    assert(store.transfers@.contains(store.transfers@[i as int]));
                    assert forall|t: Transfer|
                        store.transfers@.contains(t) && t.id == self.id implies update_status_ok(
                        t.status,
                        attributes.status,
                    ) by {
                        let w = choose|w: int|
                            0 <= w < store.transfers@.len() && store.transfers@[w] == t;
                        if w != i as int {
                            assert(false);
                        }
                    }
                }
                let row = store.transfers[i].clone();
                let updated = Transfer {
                    status: new_status,
                    transfer_message_type: match attributes.transfer_message_type {
                        Some(m) => Some(m),
                        None => row.transfer_message_type,
                    },
                    transfer_address: match &attributes.transfer_address {
                        Some(a) => Some(a.clone()),
                        None => row.transfer_address,
                    },
                    ..row
                };
                let result = updated.clone();
                let ghost up = updated;
                let ghost transfers0 = store.transfers@;
                let slot = vstd::std_specs::vec::vec_index_mut(&mut store.transfers, i);
                *slot = updated;
                proof {
                    assert(store.transfers@ == transfers0.update(i as int, up));
                    lemma_transition_keeps_wf(*old(store), *store, i as int, up);
                }
                return Ok(result);
            }
            i = i + 1;
        }
        Err(DatabaseError::with_text(ErrorCode::QueryError, "Error loading transfer"))
    }

    /// The pending transfers holding at least one of the given tickets.
    pub fn find_pending_by_ticket_instance_ids(ids: &Vec<u64>, store: &Store) -> (r: Vec<
        Transfer,
    >)
        ensures
            r@ == store.transfers@.filter(
                pending_with_ticket_in(store.transfer_tickets@, ids@),
            ),
    {
        let ghost pred = pending_with_ticket_in(store.transfer_tickets@, ids@);
        let mut r: Vec<Transfer> = Vec::new();
        let mut i: usize = 0;
        while i < store.transfers.len()
            invariant
                pred == pending_with_ticket_in(store.transfer_tickets@, ids@),
                i <= store.transfers@.len(),
                r@ == store.transfers@.take(i as int).filter(pred),
            decreases store.transfers@.len() - i,
        {
            let t = &store.transfers[i];
            let pending = t.status == TransferStatus::Pending;
            let has_ticket = if pending {
                holds_ticket_in(t.id, ids, store)
            } else {
                false
            };
            if pending && has_ticket {
                let copy = t.clone();
                r.push(copy);
            }
            i = i + 1;
            proof {
                lemma_filter_take_step(store.transfers@, pred, i - 1);
            }
        }
        proof {
            lemma_take_all(store.transfers@);
        }
        r
    }


    /// Whether none of the shows behind this transfer's tickets has
    /// ended by `now`. Every ticket must resolve through its instance to
    /// a show; a dangling reference is a query error.
    pub fn events_have_not_ended(&self, now: i64, store: &Store) -> (r: Result<
        bool,
        DatabaseError,
    >)
        requires
            store.wf(),
        ensures
            r is Ok <==> transfer_tickets_resolve(*store, self.id),
            r matches Ok(b) ==> b == (forall|j: int, e: crate::store::ShowEvent|
                0 <= j < store.transfer_tickets@.len() && store.transfer_tickets@[j].transfer_id
                    == self.id && #[trigger] crate::payloads::ticket_resolves_to(
                    *store,
                    store.transfer_tickets@[j].ticket_instance_id,
                    e,
                ) ==> !show_ended(e, now)),
            r matches Err(e) ==> e.code == ErrorCode::QueryError,
    {
        let mut all_ok = true;
        let mut j: usize = 0;
        while j < store.transfer_tickets.len()
            invariant
                store.wf(),
                j <= store.transfer_tickets@.len(),
                forall|t: int|
                    0 <= t < j && (#[trigger] store.transfer_tickets@[t]).transfer_id == self.id
                        ==> exists|e: crate::store::ShowEvent|
                        crate::payloads::ticket_resolves_to(
                            *store,
                            store.transfer_tickets@[t].ticket_instance_id,
                            e,
                        ),
                all_ok == (forall|t: int, e: crate::store::ShowEvent|
                    0 <= t < j && store.transfer_tickets@[t].transfer_id == self.id
                        && #[trigger] crate::payloads::ticket_resolves_to(
                        *store,
                        store.transfer_tickets@[t].ticket_instance_id,
                        e,
                    ) ==> !show_ended(e, now)),
            decreases store.transfer_tickets@.len() - j,
        {
            let tt = store.transfer_tickets[j];
            if tt.transfer_id == self.id {
                let ti = match store.find_ticket_instance(tt.ticket_instance_id) {
                    Some(t) => *t,
                    None => {
                        return Err(
                            DatabaseError::with_text(
                                ErrorCode::QueryError,
                                "Error loading ticket instance",
                            ),
                        );
                    },
                };
                let show = match store.find_show_event(ti.event_id) {
                    Some(e) => e,
                    None => {
                        proof {
                            crate::store::lemma_ticket_instance_unique(*store, ti);
                            assert(!transfer_tickets_resolve(*store, self.id)) by {
                                if transfer_tickets_resolve(*store, self.id) {
                                    assert(store.transfer_tickets@[j as int].transfer_id
                                        == self.id);
                                    let e = choose|e: crate::store::ShowEvent|
                                        crate::payloads::ticket_resolves_to(
                                            *store,
                                            store.transfer_tickets@[
                                                j as int
                                            ].ticket_instance_id,
                                            e,
                                        );
                                    let (k, b) = choose|k: int, b: int|
                                        0 <= k < store.ticket_instances@.len() && 0 <= b
                                            < store.show_events@.len() && (
                                        #[trigger] store.ticket_instances@[k]).id
                                            == tt.ticket_instance_id && (
                                        #[trigger] store.show_events@[b]).id
                                            == store.ticket_instances@[k].event_id
                                            && store.show_events@[b] == e;
                                    assert(store.ticket_instances@.contains(
                                        store.ticket_instances@[k],
                                    ));
                                    assert(store.show_events@[b].id == ti.event_id);
                                }
                            }
                        }
                        return Err(
                            DatabaseError::with_text(
                                ErrorCode::QueryError,
                                "Error loading event",
                            ),
                        );
                    },
                };
                let ended = match show.event_end {
                    Some(end) => end <= now,
                    None => false,
                };
                proof {
                    crate::store::lemma_ticket_instance_unique(*store, ti);
                    let k0 = choose|k: int|
                        0 <= k < store.ticket_instances@.len() && store.ticket_instances@[k]
                            == ti;
                    let b0 = choose|b: int|
                        0 <= b < store.show_events@.len() && store.show_events@[b] == *show;
                    assert(crate::payloads::ticket_resolves_to(
                        *store,
                        tt.ticket_instance_id,
                        *show,
                    ));
                    assert forall|e: crate::store::ShowEvent|
                        #[trigger] crate::payloads::ticket_resolves_to(
                            *store,
                            tt.ticket_instance_id,
                            e,
                        ) implies e == *show by {
                        crate::payloads::lemma_ticket_show_unique(
                            *store,
                            tt.ticket_instance_id,
                            e,
                            *show,
                        );
                    }
                }
                if ended {
                    all_ok = false;
                }
            }
            j = j + 1;
        }
        Ok(all_ok)
    }

    /// The short display name of a sender: first name plus an
    /// abbreviated last name, or a generic fallback when the account has
    /// no first name.
    pub fn sender_name(user: &User) -> (r: String)
        ensures
            r@ == spec_sender_name(
                match user.first_name {
                    Some(f) => Some(f@),
                    None => None,
                },
                match user.last_name {
                    Some(l) => Some(l@),
                    None => None,
                },
            ),
    {
        match (&user.first_name, &user.last_name) {
            (Some(f), Some(l)) => {
                if l.as_str().unicode_len() > 0 {
                    let mut s = f.clone();
                    s.append(" ");
                    s.append(l.as_str().substring_char(0, 1));
                    s.append(".");
                    s
                } else {
                    f.clone()
                }
            },
            (Some(f), None) => f.clone(),
            _ => String::from_str("another user"),
        }
    }
}

/// The display name `sender_name` promises: "First L." when both names
/// are known (and the last name is not empty), the first name alone when
/// only it is, and "another user" otherwise.
pub open spec fn spec_sender_name(first: Option<Seq<char>>, last: Option<Seq<char>>) -> Seq<
    char,
> {
    match (first, last) {
        (Some(f), Some(l)) => if l.len() > 0 {
            f + " "@ + l.take(1) + "."@
        } else {
            f
        },
        (Some(f), None) => f,
        _ => "another user"@,
    }
}

/// Whether the transfer with the given id is currently pending.
pub fn is_transfer_pending(id: u64, store: &Store) -> (r: bool)
    ensures
        r == transfer_pending(store.transfers@, id),
{
    let mut i: usize = 0;
    while i < store.transfers.len()
        invariant
            i <= store.transfers@.len(),
            forall|j: int|
                0 <= j < i ==> !((#[trigger] store.transfers@[j]).id == id
                    && store.transfers@[j].status == TransferStatus::Pending),
        decreases store.transfers@.len() - i,
    {
        let t = &store.transfers[i];
        if t.id == id && t.status == TransferStatus::Pending {
            return true;
        }
        i = i + 1;
    }
    false
}

/// A transition only rewrites one row from pending to a terminal state;
/// every store invariant survives it.
proof fn lemma_transition_keeps_wf(before: Store, after: Store, i: int, up: Transfer)
    requires
        before.wf(),
        0 <= i < before.transfers@.len(),
        after == (Store { transfers: after.transfers, ..before }),
        after.transfers@ == before.transfers@.update(i, up),
        up.id == before.transfers@[i].id,
        up.transfer_key == before.transfers@[i].transfer_key,
        up.status == before.transfers@[i].status || up.status != TransferStatus::Pending,
        (up.destination_user_id is Some) <==> up.status == TransferStatus::Completed,
    ensures
        after.wf(),
{
    assert(forall|a: int|
        0 <= a < after.transfers@.len() ==> (#[trigger] after.transfers@[a]).id
            == before.transfers@[a].id);
    assert(forall|a: int|
        0 <= a < after.transfers@.len() ==> (#[trigger] after.transfers@[a]).transfer_key
            == before.transfers@[a].transfer_key);
    assert forall|id: u64|
        transfer_pending(after.transfers@, id) implies transfer_pending(
        before.transfers@,
        id,
    ) by {
        let w = choose|w: int|
            0 <= w < after.transfers@.len() && (#[trigger] after.transfers@[w]).id == id
                && after.transfers@[w].status == TransferStatus::Pending;
        assert(before.transfers@[w].id == id && before.transfers@[w].status
            == TransferStatus::Pending);
    }
}



/// Whether a show is over at `now`.
pub open spec fn show_ended(e: crate::store::ShowEvent, now: i64) -> bool {
    match e.event_end {
        Some(end) => end <= now,
        None => false,
    }
}

/// Whether every ticket of the transfer resolves to a show.
pub open spec fn transfer_tickets_resolve(store: Store, transfer_id: u64) -> bool {
    forall|j: int|
        0 <= j < store.transfer_tickets@.len() && (
        #[trigger] store.transfer_tickets@[j]).transfer_id == transfer_id ==> exists|
            e: crate::store::ShowEvent,
        |
            crate::payloads::ticket_resolves_to(
                store,
                store.transfer_tickets@[j].ticket_instance_id,
                e,
            )
}

/// Whether a raw attribute update may set the requested status: it may
/// keep the current one, or move a pending transfer to cancelled. Any
/// other change would leave the one-way lifecycle (a completion must go
/// through `complete`, which records the destination).
pub open spec fn update_status_ok(current: TransferStatus, requested: Option<
    TransferStatus,
>) -> bool {
    match requested {
        Some(s) => s == current || (current == TransferStatus::Pending && s
            == TransferStatus::Cancelled),
        None => true,
    }
}

/// The editable fields of a transfer.
pub struct TransferEditableAttributes {
    pub status: Option<TransferStatus>,
    pub transfer_message_type: Option<TransferMessageType>,
    pub transfer_address: Option<String>,
}

impl TransferEditableAttributes {
    /// No field set: the update leaves the row as it is.
    pub fn blank() -> (r: TransferEditableAttributes)
        ensures
            r.status is None,
            r.transfer_message_type is None,
            r.transfer_address is None,
    {
        TransferEditableAttributes { status: None, transfer_message_type: None, transfer_address: None }
    }
}

/// The exact receive URL the transfer machine promises: base, path, then
/// the four query parameters in their fixed order.
pub open spec fn spec_receive_url(
    base: Seq<char>,
    transfer_key: u64,
    source_user_id: u64,
    count: nat,
    signature: Seq<char>,
) -> Seq<char> {
    base + "/tickets/transfers/receive?sender_user_id="@ + dec_digits(source_user_id as nat)
        + "&transfer_key="@ + dec_digits(transfer_key as nat) + "&num_tickets="@ + dec_digits(
        count,
    ) + "&signature="@ + signature
}

/// A user has at most one default wallet, so any two of them coincide.
proof fn lemma_default_wallet_unique(store: Store, user_id: u64, w0: Wallet)
    requires
        store.wf(),
        default_wallet_of(store, user_id, w0),
    ensures
        forall|w: Wallet| default_wallet_of(store, user_id, w) ==> w == w0,
{
    assert forall|w: Wallet| default_wallet_of(store, user_id, w) implies w == w0 by {
        let a = choose|a: int| 0 <= a < store.wallets@.len() && store.wallets@[a] == w;
        let b = choose|b: int| 0 <= b < store.wallets@.len() && store.wallets@[b] == w0;
        if a != b {
            assert(false);
        }
    }
}

/// The predicate of the pending-by-ticket query: a pending transfer that
/// holds one of the given tickets.
pub open spec fn pending_with_ticket_in(tts: Seq<TransferTicket>, ids: Seq<u64>) -> spec_fn(
    Transfer,
) -> bool {
    |t: Transfer|
        t.status == TransferStatus::Pending && exists|j: int|
            0 <= j < tts.len() && (#[trigger] tts[j]).transfer_id == t.id && ids.contains(
                tts[j].ticket_instance_id,
            )
}

/// Whether the transfer holds one of the given tickets.
fn holds_ticket_in(transfer_id: u64, ids: &Vec<u64>, store: &Store) -> (r: bool)
    ensures
        r == exists|j: int|
            0 <= j < store.transfer_tickets@.len() && (
            #[trigger] store.transfer_tickets@[j]).transfer_id == transfer_id && ids@.contains(
                store.transfer_tickets@[j].ticket_instance_id,
            ),
{
    let mut j: usize = 0;
    while j < store.transfer_tickets.len()
        invariant
            j <= store.transfer_tickets@.len(),
            forall|k: int|
                0 <= k < j ==> !((#[trigger] store.transfer_tickets@[k]).transfer_id == transfer_id
                    && ids@.contains(store.transfer_tickets@[k].ticket_instance_id)),
        decreases store.transfer_tickets@.len() - j,
    {
        let tt = store.transfer_tickets[j];
        if tt.transfer_id == transfer_id {
            let in_ids = crate::lookup::contains_u64(ids, tt.ticket_instance_id);
            if in_ids {
                return true;
            }
        }
        j = j + 1;
    }
    false
}

impl NewTransfer {
    /// Commits the transfer as pending under a fresh id, appending the
    /// started event in the same mutation. Rejects a transfer key that is
    /// already in use: the key is the external correlation token.
    pub fn commit(self, now: i64, store: &mut Store) -> (r: Result<Transfer, DatabaseError>)
        requires
            old(store).wf(),
        ensures
            final(store).wf(),
            r is Ok <==> (!(exists|j: int|
                0 <= j < old(store).transfers@.len() && (#[trigger] old(
                    store,
                ).transfers@[j]).transfer_key == self.transfer_key) && old(store).next_seq
                < u64::MAX && old(store).next_row_id < u64::MAX),
            match r {
                Ok(t) => {
                    &&& t.source_user_id == self.source_user_id
                    &&& t.transfer_key == self.transfer_key
                    &&& t.transfer_message_type == self.transfer_message_type
                    &&& t.transfer_address == self.transfer_address
                    &&& t.direct == self.direct
                    &&& t.status == TransferStatus::Pending
                    &&& t.destination_user_id is None
                    &&& t.destination_temporary_user_id is None
                    &&& t.cancelled_by_user_id is None
                    &&& t.created_at == now
                    &&& !has_transfer(*old(store), t.id)
                    &&& final(store).transfers@ == old(store).transfers@.push(t)
                    &&& final(store).domain_events@.len() == old(store).domain_events@.len() + 1
                    &&& final(store).domain_events@ == old(store).domain_events@.push(
                        final(store).domain_events@.last(),
                    )
                    &&& transition_event(
                        final(store).domain_events@.last(),
                        DomainEventTypes::TransferTicketStarted,
                        t.id,
                        Some(self.source_user_id),
                        "Transfer was started"@,
                        None,
                        old(store).next_seq,
                        crate::domain_events::commit_created_at(*old(store), now),
                    )
                    &&& final(store).next_seq == old(store).next_seq + 1
                    &&& (*final(store) == Store {
                        transfers: final(store).transfers,
                        domain_events: final(store).domain_events,
                        next_seq: final(store).next_seq,
                        next_row_id: final(store).next_row_id,
                        interactions: final(store).interactions,
                        ..*old(store)
                    })
                    &&& crate::interactions::interactions_logged(
                        final(store).domain_events@.last(),
                        old(store).interactions@,
                        final(store).interactions@,
                        *final(store),
                        now,
                    )
                },
                Err(e) => {
                    &&& *final(store) == *old(store)
                    &&& (e.code == ErrorCode::BusinessProcessError ==> exists|j: int|
                        0 <= j < old(store).transfers@.len() && (#[trigger] old(
                            store,
                        ).transfers@[j]).transfer_key == self.transfer_key)
                    &&& (e.code == ErrorCode::InsertError ==> old(store).next_seq == u64::MAX
                        || old(store).next_row_id == u64::MAX)
                    &&& (e.code == ErrorCode::BusinessProcessError || e.code
                        == ErrorCode::InsertError)
                },
            },
    {
        if store.next_seq == u64::MAX {
            return Err(
                DatabaseError::with_text(ErrorCode::InsertError, "Could not insert domain event"),
            );
        }
        let mut i: usize = 0;
        while i < store.transfers.len()
            invariant
                old(store).wf(),
                old(store).next_seq < u64::MAX,
                *store == *old(store),
                i <= store.transfers@.len(),
                forall|j: int|
                    0 <= j < i ==> (#[trigger] store.transfers@[j]).transfer_key
                        != self.transfer_key,
            decreases store.transfers@.len() - i,
        {
            if store.transfers[i].transfer_key == self.transfer_key {
                return Err(
                    DatabaseError::with_text(
                        ErrorCode::BusinessProcessError,
                        "Transfer key is already in use",
                    ),
                );
            }
            i = i + 1;
        }
        let id = match store.fresh_row_id() {
            Some(v) => v,
            None => {
                return Err(
                    DatabaseError::with_text(ErrorCode::InsertError, "Could not create transfer"),
                );
            },
        };
        let transfer = Transfer {
            id,
            transfer_key: self.transfer_key,
            source_user_id: self.source_user_id,
            destination_user_id: None,
            destination_temporary_user_id: None,
            status: TransferStatus::Pending,
            direct: self.direct,
            cancelled_by_user_id: None,
            transfer_message_type: self.transfer_message_type,
            transfer_address: self.transfer_address,
            created_at: now,
        };
        let result = transfer.clone();
        let ghost tr = transfer;
        proof {
            assert(forall|j: int|
                0 <= j < store.transfers@.len() ==> (#[trigger] store.transfers@[j]).id != id);
        }
        store.transfers.push(transfer);
        proof {
            assert forall|id2: u64|
                transfer_pending(store.transfers@, id2) && id2 != id implies transfer_pending(
                old(store).transfers@,
                id2,
            ) by {
                let w = choose|w: int|
                    0 <= w < store.transfers@.len() && (#[trigger] store.transfers@[w]).id == id2
                        && store.transfers@[w].status == TransferStatus::Pending;
                assert(old(store).transfers@[w].id == id2);
            }
            assert forall|a: int, b: int|
                0 <= a < b < store.transfer_tickets@.len() && (
            #[trigger] store.transfer_tickets@[a]).ticket_instance_id == (
            #[trigger] store.transfer_tickets@[b]).ticket_instance_id && transfer_pending(
                store.transfers@,
                store.transfer_tickets@[a].transfer_id,
            ) && transfer_pending(
                store.transfers@,
                store.transfer_tickets@[b].transfer_id,
            ) implies store.transfer_tickets@[a].transfer_id
                == store.transfer_tickets@[b].transfer_id by {
                assert(old(store).transfer_tickets@[a].transfer_id < id);
                assert(old(store).transfer_tickets@[b].transfer_id < id);
            }
            assert(store.wf());
        }
        let event = DomainEvent::create(
            DomainEventTypes::TransferTicketStarted,
            String::from_str("Transfer was started"),
            Tables::Transfers,
            Some(id),
            Some(self.source_user_id),
            None,
        );
        let ghost mid = *store;
        match event.commit(now, store) {
            Ok(committed) => {
                proof {
                    crate::interactions::lemma_interactions_logged_same_tables(
                        committed,
                        mid.interactions@,
                        store.interactions@,
                        mid,
                        *store,
                        now,
                    );
                }
            },
            Err(e) => {
                proof {
                    assert(false);
                }
                return Err(e);
            },
        }
        Ok(result)
    }
}

} // verus!

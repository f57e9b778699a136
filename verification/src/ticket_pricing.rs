//! Ticket pricing periods: validation of date ranges, the no-overlap
//! rule, and selection of the price in force.

use vstd::prelude::*;

use crate::enums::TicketPricingStatus;
use crate::errors::DatabaseError;
use crate::errors::ErrorCode;
use crate::lookup::lemma_filter_take_step;
use crate::lookup::lemma_take_all;
use crate::store::has_ticket_pricing;
use crate::store::Store;
use crate::strutil::clone_opt_string;

verus! {

/// A pricing period of one ticket type.
#[derive(Debug)]
pub struct TicketPricing {
    pub id: u64,
    pub ticket_type_id: u64,
    pub name: String,
    pub status: TicketPricingStatus,
    pub price_in_cents: i64,
    pub start_date: i64,
    pub end_date: i64,
    pub is_box_office_only: bool,
}

impl Clone for TicketPricing {
    fn clone(&self) -> (r: TicketPricing)
        ensures
            r == *self,
    {
        TicketPricing {
            id: self.id,
            ticket_type_id: self.ticket_type_id,
            name: self.name.clone(),
            status: self.status,
            price_in_cents: self.price_in_cents,
            start_date: self.start_date,
            end_date: self.end_date,
            is_box_office_only: self.is_box_office_only,
        }
    }
}

/// A pricing period prepared but not yet committed.
pub struct NewTicketPricing {
    pub ticket_type_id: u64,
    pub name: String,
    pub status: TicketPricingStatus,
    pub price_in_cents: i64,
    pub start_date: i64,
    pub end_date: i64,
    pub is_box_office_only: bool,
}

/// The editable fields of a pricing period.
pub struct TicketPricingEditableAttributes {
    pub name: Option<String>,
    pub price_in_cents: Option<i64>,
    pub start_date: Option<i64>,
    pub end_date: Option<i64>,
    pub is_box_office_only: Option<bool>,
}

impl TicketPricingEditableAttributes {
    /// No field set: the update leaves the row as it is.
    pub fn blank() -> (r: TicketPricingEditableAttributes)
        ensures
            r.name is None,
            r.price_in_cents is None,
            r.start_date is None,
            r.end_date is None,
            r.is_box_office_only is None,
    {
        TicketPricingEditableAttributes {
            name: None,
            price_in_cents: None,
            start_date: None,
            end_date: None,
            is_box_office_only: None,
        }
    }
}

/// A valid period starts strictly before it ends.
pub open spec fn period_valid(start_date: int, end_date: int) -> bool {
    start_date < end_date
}

/// Two periods overlap when neither ends before the other starts.
pub open spec fn periods_overlap(s1: int, e1: int, s2: int, e2: int) -> bool {
    s1 < e2 && s2 < e1
}

/// The predicate of the price-in-force query: a published, non-box-office
/// period of the ticket type covering `now`.
pub open spec fn in_force(ticket_type_id: u64, now: i64) -> spec_fn(TicketPricing) -> bool {
    |p: TicketPricing|
        p.ticket_type_id == ticket_type_id && !p.is_box_office_only && p.status
            == TicketPricingStatus::Published && p.start_date <= now && p.end_date > now
}

/// The predicate selecting potential conflicts of a period: another
/// published row of the same ticket type and box-office flag.
pub open spec fn conflict_candidate(id: u64, ticket_type_id: u64, is_box_office_only: bool)
    -> spec_fn(TicketPricing) -> bool {
    |p: TicketPricing|
        p.id != id && p.ticket_type_id == ticket_type_id && p.is_box_office_only
            == is_box_office_only && p.status == TicketPricingStatus::Published
}

impl TicketPricing {
    /// Prepares a published pricing period.
    pub fn create(
        ticket_type_id: u64,
        name: String,
        start_date: i64,
        end_date: i64,
        price_in_cents: i64,
        is_box_office_only: bool,
    ) -> (r: NewTicketPricing)
        ensures
            r.ticket_type_id == ticket_type_id,
            r.name == name,
            r.status == TicketPricingStatus::Published,
            r.price_in_cents == price_in_cents,
            r.start_date == start_date,
            r.end_date == end_date,
            r.is_box_office_only == is_box_office_only,
    {
        NewTicketPricing {
            ticket_type_id,
            name,
            status: TicketPricingStatus::Published,
            price_in_cents,
            start_date,
            end_date,
            is_box_office_only,
        }
    }

    /// The period's current status.
    pub fn status(&self) -> (r: TicketPricingStatus)
        ensures
            r == self.status,
    {
        self.status
    }

    /// Validates the period an update would leave behind: its start must
    /// come strictly before its end.
    pub fn validate_record(&self, attributes: &TicketPricingEditableAttributes) -> (r: Result<
        (),
        DatabaseError,
    >)
        ensures
            r is Ok <==> period_valid(
                attributes.start_date.unwrap_or(self.start_date) as int,
                attributes.end_date.unwrap_or(self.end_date) as int,
            ),
            r matches Err(e) ==> e.code == ErrorCode::ValidationError,
    {
        let start = match attributes.start_date {
            Some(d) => d,
            None => self.start_date,
        };
        let end = match attributes.end_date {
            Some(d) => d,
            None => self.end_date,
        };
        if start < end {
            Ok(())
        } else {
            Err(
                DatabaseError::with_text(
                    ErrorCode::ValidationError,
                    "Start date must come before end date",
                ),
            )
        }
    }

    /// Checks that the given period would not overlap another published
    /// period of the same ticket type and box-office flag. The row with
    /// the given id itself is ignored, so a row can be revalidated.
    pub fn ticket_pricing_no_overlapping_periods(
        id: u64,
        ticket_type_id: u64,
        start_date: i64,
        end_date: i64,
        is_box_office_only: bool,
        store: &Store,
    ) -> (r: bool)
        ensures
            r == !exists|i: int|
                0 <= i < store.ticket_pricing@.len() && conflict_candidate(
                    id,
                    ticket_type_id,
                    is_box_office_only,
                )(#[trigger] store.ticket_pricing@[i]) && periods_overlap(
                    store.ticket_pricing@[i].start_date as int,
                    store.ticket_pricing@[i].end_date as int,
                    start_date as int,
                    end_date as int,
                ),
    {
        let mut i: usize = 0;
        while i < store.ticket_pricing.len()
            invariant
                i <= store.ticket_pricing@.len(),
                forall|j: int|
                    0 <= j < i ==> !(conflict_candidate(id, ticket_type_id, is_box_office_only)(
                        #[trigger] store.ticket_pricing@[j],
                    ) && periods_overlap(
                        store.ticket_pricing@[j].start_date as int,
                        store.ticket_pricing@[j].end_date as int,
                        start_date as int,
                        end_date as int,
                    )),
            decreases store.ticket_pricing@.len() - i,
    {
            let p = &store.ticket_pricing[i];
            let candidate = p.id != id && p.ticket_type_id == ticket_type_id
                && p.is_box_office_only == is_box_office_only && p.status
                == TicketPricingStatus::Published;
            if candidate && p.start_date < end_date && start_date < p.end_date {
                return false;
            }
            i = i + 1;
        }
        true
    }

    /// Finds a pricing period by id; errors when it does not exist.
    pub fn find(id: u64, store: &Store) -> (r: Result<TicketPricing, DatabaseError>)
        ensures
            match r {
                Ok(p) => p.id == id && store.ticket_pricing@.contains(p),
                Err(e) => e.is_text(ErrorCode::QueryError, "Error loading ticket pricing"@)
                    && !has_ticket_pricing(*store, id),
            },
    {
        let mut i: usize = 0;
        while i < store.ticket_pricing.len()
            invariant
                i <= store.ticket_pricing@.len(),
                forall|j: int| 0 <= j < i ==> (#[trigger] store.ticket_pricing@[j]).id != id,
            decreases store.ticket_pricing@.len() - i,
        {
            if store.ticket_pricing[i].id == id {
                return Ok(store.ticket_pricing[i].clone());
            }
            i = i + 1;
        }
        Err(DatabaseError::with_text(ErrorCode::QueryError, "Error loading ticket pricing"))
    }

    /// The price in force for a ticket type at `now`: exactly one
    /// published, non-box-office period must cover the instant. No period
    /// is a `NoResults` error; more than one is a
    /// `MultipleResultsWhenOneExpected` error. Only published periods
    /// count: a period that `destroy` retained and marked deleted can no
    /// longer be sold.
    pub fn get_current_ticket_pricing(ticket_type_id: u64, now: i64, store: &Store) -> (r: Result<
        TicketPricing,
        DatabaseError,
    >)
        ensures
            match r {
                Ok(p) => store.ticket_pricing@.filter(in_force(ticket_type_id, now)).len() == 1 && p
                    == store.ticket_pricing@.filter(in_force(ticket_type_id, now))[0],
                Err(e) => (e.is_text(ErrorCode::NoResults, "No ticket pricing found"@)
                    && store.ticket_pricing@.filter(in_force(ticket_type_id, now)).len() == 0) || (
                e.is_text(
                    ErrorCode::MultipleResultsWhenOneExpected,
                    "Expected a single ticket pricing period but multiple were found"@,
                ) && store.ticket_pricing@.filter(in_force(ticket_type_id, now)).len() > 1),
            },
    {
        let ghost pred = in_force(ticket_type_id, now);
        let mut found: Option<TicketPricing> = None;
        let mut count: usize = 0;
        let mut i: usize = 0;
        while i < store.ticket_pricing.len()
            invariant
                pred == in_force(ticket_type_id, now),
                i <= store.ticket_pricing@.len(),
                count == store.ticket_pricing@.take(i as int).filter(pred).len(),
                count > 0 ==> (found matches Some(p) && store.ticket_pricing@.take(
                    i as int,
                ).filter(pred)[0] == p),
                count == 0 ==> found is None,
                count <= i,
            decreases store.ticket_pricing@.len() - i,
        {
            let p = &store.ticket_pricing[i];
            let hit = p.ticket_type_id == ticket_type_id && !p.is_box_office_only && p.status
                == TicketPricingStatus::Published && p.start_date <= now && p.end_date > now;
            if hit {
                if count == 0 {
                    found = Some(p.clone());
                }
                count = count + 1;
            }
            i = i + 1;
            proof {
                lemma_filter_take_step(store.ticket_pricing@, pred, i - 1);
            }
        }
        proof {
            lemma_take_all(store.ticket_pricing@);
        }
        if count == 0 {
            return Err(DatabaseError::with_text(ErrorCode::NoResults, "No ticket pricing found"));
        }
        if count > 1 {
            return Err(
                DatabaseError::with_text(
                    ErrorCode::MultipleResultsWhenOneExpected,
                    "Expected a single ticket pricing period but multiple were found",
                ),
            );
        }
        match found {
            Some(p) => Ok(p),
            None => Err(
                DatabaseError::with_text(ErrorCode::NoResults, "No ticket pricing found"),
            ),
        }
    }

    /// Applies the editable attributes to this row and writes it back,
    /// after validating the dates. Errors when the dates are invalid or
    /// the row no longer exists.
    pub fn update(&self, attributes: &TicketPricingEditableAttributes, store: &mut Store) -> (r:
        Result<TicketPricing, DatabaseError>)
        requires
            old(store).wf(),
        ensures
            final(store).wf(),
            match r {
                Ok(p) => {
                    &&& p.id == self.id
                    &&& p.ticket_type_id == self.ticket_type_id
                    &&& p.status == self.status
                    &&& p.name@ == (match attributes.name {
                        Some(n) => n@,
                        None => self.name@,
                    })
                    &&& p.price_in_cents == attributes.price_in_cents.unwrap_or(
                        self.price_in_cents,
                    )
                    &&& p.start_date == attributes.start_date.unwrap_or(self.start_date)
                    &&& p.end_date == attributes.end_date.unwrap_or(self.end_date)
                    &&& p.is_box_office_only == attributes.is_box_office_only.unwrap_or(
                        self.is_box_office_only,
                    )
                    &&& period_valid(p.start_date as int, p.end_date as int)
                    &&& (*final(store) == Store {
                        ticket_pricing: final(store).ticket_pricing,
                        ..*old(store)
                    })
                    &&& exists|i: int|
                        0 <= i < old(store).ticket_pricing@.len() && (#[trigger] old(
                            store,
                        ).ticket_pricing@[i]).id == self.id && final(store).ticket_pricing@ == old(
                            store,
                        ).ticket_pricing@.update(i, p)
                },
                Err(e) => {
                    &&& *final(store) == *old(store)
                    &&& (e.code == ErrorCode::ValidationError ==> !period_valid(
                        attributes.start_date.unwrap_or(self.start_date) as int,
                        attributes.end_date.unwrap_or(self.end_date) as int,
                    ))
                    &&& (e.code == ErrorCode::UpdateError ==> !has_ticket_pricing(
                        *old(store),
                        self.id,
                    ))
                    &&& (e.code == ErrorCode::ValidationError || e.code == ErrorCode::UpdateError)
                },
            },
    {
        if let Err(e) = self.validate_record(attributes) {
            return Err(e);
        }
        let updated = TicketPricing {
            id: self.id,
            ticket_type_id: self.ticket_type_id,
            name: match &attributes.name {
                Some(n) => n.clone(),
                None => self.name.clone(),
            },
            status: self.status,
            price_in_cents: match attributes.price_in_cents {
                Some(v) => v,
                None => self.price_in_cents,
            },
            start_date: match attributes.start_date {
                Some(v) => v,
                None => self.start_date,
            },
            end_date: match attributes.end_date {
                Some(v) => v,
                None => self.end_date,
            },
            is_box_office_only: match attributes.is_box_office_only {
                Some(v) => v,
                None => self.is_box_office_only,
            },
        };
        let n = store.ticket_pricing.len();
        let mut i: usize = 0;
        while i < n
            invariant
                old(store).wf(),
                *store == *old(store),
                n == store.ticket_pricing@.len(),
                i <= n,
                updated.id == self.id,
                period_valid(updated.start_date as int, updated.end_date as int),
                updated.ticket_type_id == self.ticket_type_id,
                updated.status == self.status,
                updated.name@ == (match attributes.name {
                    Some(n2) => n2@,
                    None => self.name@,
                }),
                updated.price_in_cents == attributes.price_in_cents.unwrap_or(
                    self.price_in_cents,
                ),
                updated.start_date == attributes.start_date.unwrap_or(self.start_date),
                updated.end_date == attributes.end_date.unwrap_or(self.end_date),
                updated.is_box_office_only == attributes.is_box_office_only.unwrap_or(
                    self.is_box_office_only,
                ),
                forall|j: int| 0 <= j < i ==> (#[trigger] store.ticket_pricing@[j]).id != self.id,
            decreases n - i,
        {
            let hit = store.ticket_pricing[i].id == self.id;
            if hit {
                let ghost rows0 = store.ticket_pricing@;
                let result = updated.clone();
                let ghost up = updated;
                let slot = vstd::std_specs::vec::vec_index_mut(&mut store.ticket_pricing, i);
                *slot = updated;
                proof {
                    assert(store.ticket_pricing@ == rows0.update(i as int, up));
                    assert(forall|a: int|
                        0 <= a < store.ticket_pricing@.len() ==> (
                        #[trigger] store.ticket_pricing@[a]).id == rows0[a].id);
                    assert(store.wf());
                }
                return Ok(result);
            }
            i = i + 1;
        }
        Err(DatabaseError::with_text(ErrorCode::UpdateError, "Could not update ticket_pricing"))
    }

    /// Removes the period when no order item references it; otherwise
    /// marks it deleted and keeps the row. Returns how many rows were
    /// removed.
    pub fn destroy(&self, store: &mut Store) -> (r: Result<usize, DatabaseError>)
        requires
            old(store).wf(),
        ensures
            final(store).wf(),
            r is Ok,
            (*final(store) == Store {
                ticket_pricing: final(store).ticket_pricing,
                ..*old(store)
            }),
            match r {
                Ok(n) => {
                    &&& (pricing_used(*old(store), self.id) ==> n == 0 && (if has_ticket_pricing(
                        *old(store),
                        self.id,
                    ) {
                        exists|i: int|
                            0 <= i < old(store).ticket_pricing@.len() && (#[trigger] old(
                                store,
                            ).ticket_pricing@[i]).id == self.id && final(store).ticket_pricing@
                                == old(store).ticket_pricing@.update(
                                i,
                                (TicketPricing {
                                    status: TicketPricingStatus::Deleted,
                                    ..old(store).ticket_pricing@[i]
                                }),
                            )
                    } else {
                        final(store).ticket_pricing@ == old(store).ticket_pricing@
                    }))
                    &&& (!pricing_used(*old(store), self.id) ==> n == (
                        if has_ticket_pricing(*old(store), self.id) {
                            1int
                        } else {
                            0int
                        }) && !has_ticket_pricing(*final(store), self.id))
                },
                Err(_) => false,
            },
    {
        let mut used = false;
        let mut i: usize = 0;
        while i < store.order_items.len()
            invariant
                *store == *old(store),
                i <= store.order_items@.len(),
                used == exists|j: int|
                    0 <= j < i && (#[trigger] store.order_items@[j]).ticket_pricing_id == Some(
                        self.id,
                    ),
            decreases store.order_items@.len() - i,
        {
            let linked = match store.order_items[i].ticket_pricing_id {
                Some(p) => p == self.id,
                None => false,
            };
            if linked {
                used = true;
            }
            i = i + 1;
        }
        if used {
            // referenced by an order: keep the row, mark it deleted
            self.mark_deleted(store);
            Ok(0)
        } else {
            let n = self.delete_row(store);
            Ok(n)
        }
    }

    /// Marks the row deleted in place; a missing row is left alone.
    fn mark_deleted(&self, store: &mut Store)
        requires
            old(store).wf(),
        ensures
            final(store).wf(),
            (*final(store) == Store {
                ticket_pricing: final(store).ticket_pricing,
                ..*old(store)
            }),
            !has_ticket_pricing(*old(store), self.id) ==> final(store).ticket_pricing@ == old(
                store,
            ).ticket_pricing@,
            has_ticket_pricing(*old(store), self.id) ==> exists|i: int|
                0 <= i < old(store).ticket_pricing@.len() && (#[trigger] old(
                    store,
                ).ticket_pricing@[i]).id == self.id && final(store).ticket_pricing@ == old(
                    store,
                ).ticket_pricing@.update(
                    i,
                    (TicketPricing {
                        status: TicketPricingStatus::Deleted,
                        ..old(store).ticket_pricing@[i]
                    }),
                ),
    {
        let n = store.ticket_pricing.len();
        let mut i: usize = 0;
        while i < n
            invariant
                old(store).wf(),
                *store == *old(store),
                n == store.ticket_pricing@.len(),
                i <= n,
                forall|a: int|
                    0 <= a < i ==> (#[trigger] store.ticket_pricing@[a]).id != self.id,
            decreases n - i,
        {
            let hit = store.ticket_pricing[i].id == self.id;
            if hit {
                let updated = TicketPricing {
                    status: TicketPricingStatus::Deleted,
                    ..store.ticket_pricing[i].clone()
                };
                let ghost up = updated;
                let ghost rows0 = store.ticket_pricing@;
                let slot = vstd::std_specs::vec::vec_index_mut(&mut store.ticket_pricing, i);
                *slot = updated;
                proof {
                    assert(store.ticket_pricing@ == rows0.update(i as int, up));
                    assert(up == (TicketPricing {
                        status: TicketPricingStatus::Deleted,
                        ..rows0[i as int]
                    }));
                    assert(forall|a: int|
                        0 <= a < store.ticket_pricing@.len() ==> (
                        #[trigger] store.ticket_pricing@[a]).id == rows0[a].id);
                    assert(store.wf());
                }
                return ;
            }
            i = i + 1;
        }
    }

    /// Deletes the row, returning how many rows went away.
    fn delete_row(&self, store: &mut Store) -> (r: usize)
        requires
            old(store).wf(),
        ensures
            final(store).wf(),
            (*final(store) == Store {
                ticket_pricing: final(store).ticket_pricing,
                ..*old(store)
            }),
            !has_ticket_pricing(*final(store), self.id),
            r == (if has_ticket_pricing(*old(store), self.id) {
                1int
            } else {
                0int
            }),
            forall|p: TicketPricing|
                final(store).ticket_pricing@.contains(p) <==> (old(
                    store,
                ).ticket_pricing@.contains(p) && p.id != self.id),
    {
        let mut kept: Vec<TicketPricing> = Vec::new();
        let mut removed: usize = 0;
        let mut i: usize = 0;
        let ghost rows0 = store.ticket_pricing@;
        while i < store.ticket_pricing.len()
            invariant
                old(store).wf(),
                rows0 == store.ticket_pricing@,
                (*store == *old(store)),
                i <= rows0.len(),
                removed <= 1,
                removed == 0 <==> (forall|b: int|
                    0 <= b < i ==> (#[trigger] rows0[b]).id != self.id),
                forall|a: int, b: int|
                    0 <= a < b < kept@.len() ==> (#[trigger] kept@[a]).id != (
                    #[trigger] kept@[b]).id,
                forall|a: int| 0 <= a < kept@.len() ==> (#[trigger] kept@[a]).id != self.id,
                forall|a: int|
                    0 <= a < kept@.len() ==> exists|b: int|
                        0 <= b < i && #[trigger] kept@[a] == #[trigger] rows0[b],
                forall|b: int|
                    0 <= b < i && (#[trigger] rows0[b]).id != self.id ==> kept@.contains(rows0[b]),
            decreases rows0.len() - i,
        {
            let hit = store.ticket_pricing[i].id == self.id;
            if !hit {
                let ghost kept0 = kept@;
                let row = store.ticket_pricing[i].clone();
                push_kept_row(&mut kept, row, Ghost(rows0), Ghost(i as int), Ghost(self.id));
                proof {
                    assert forall|b: int|
                        0 <= b < i + 1 && (#[trigger] rows0[b]).id != self.id implies kept@.contains(
                        rows0[b],
                    ) by {
                        if b < i {
                            let w = choose|w: int| 0 <= w < kept0.len() && kept0[w] == rows0[b];
                            assert(kept@[w] == rows0[b]);
                        } else {
                            assert(kept@[kept@.len() - 1] == rows0[b]);
                        }
                    }
                }
            } else {
                removed = 1;
            }
            i = i + 1;
        }
        store.ticket_pricing = kept;
        proof {
            assert forall|p: TicketPricing|
                store.ticket_pricing@.contains(p) implies (rows0.contains(p) && p.id
                != self.id) by {
                let a = choose|a: int|
                    0 <= a < store.ticket_pricing@.len() && store.ticket_pricing@[a] == p;
                let b = choose|b: int| 0 <= b < rows0.len() && store.ticket_pricing@[a] == rows0[b];
                assert(rows0[b] == p);
            }
            assert(!has_ticket_pricing(*store, self.id)) by {
                if has_ticket_pricing(*store, self.id) {
                    let w = choose|w: int|
                        0 <= w < store.ticket_pricing@.len() && (
                        #[trigger] store.ticket_pricing@[w]).id == self.id;
                }
            }
            if has_ticket_pricing(*old(store), self.id) {
                assert(removed == 1) by {
                    let w = choose|w: int|
                        0 <= w < rows0.len() && (#[trigger] rows0[w]).id == self.id;
                }
            }
            assert(store.wf());
        }
        removed
    }
}

/// Appends a surviving row, keeping the accumulator's uniqueness and
/// provenance facts.
fn push_kept_row(
    kept: &mut Vec<TicketPricing>,
    row: TicketPricing,
    Ghost(rows0): Ghost<Seq<TicketPricing>>,
    Ghost(src): Ghost<int>,
    Ghost(removed_id): Ghost<u64>,
)
    requires
        0 <= src < rows0.len(),
        row == rows0[src],
        row.id != removed_id,
        forall|a: int, b: int|
            0 <= a < b < rows0.len() ==> (#[trigger] rows0[a]).id != (#[trigger] rows0[b]).id,
        forall|a: int, b: int|
            0 <= a < b < old(kept)@.len() ==> (#[trigger] old(kept)@[a]).id != (#[trigger] old(
                kept,
            )@[b]).id,
        forall|a: int|
            0 <= a < old(kept)@.len() ==> exists|b: int|
                0 <= b < src && #[trigger] old(kept)@[a] == #[trigger] rows0[b],
    ensures
        final(kept)@ == old(kept)@.push(row),
        forall|a: int, b: int|
            0 <= a < b < final(kept)@.len() ==> (#[trigger] final(kept)@[a]).id != (
            #[trigger] final(kept)@[b]).id,
        forall|a: int|
            0 <= a < final(kept)@.len() ==> exists|b: int|
                0 <= b < src + 1 && #[trigger] final(kept)@[a] == #[trigger] rows0[b],
{
    kept.push(row);
    proof {
        assert forall|a: int, b: int|
            0 <= a < b < kept@.len() implies (#[trigger] kept@[a]).id != (
        #[trigger] kept@[b]).id by {
            if b == kept@.len() - 1 {
                let w = choose|w: int| 0 <= w < src && old(kept)@[a] == rows0[w];
                assert(rows0[w].id != rows0[src].id);
            }
        }
        assert forall|a: int|
            0 <= a < kept@.len() implies exists|b: int|
            0 <= b < src + 1 && #[trigger] kept@[a] == #[trigger] rows0[b] by {
            if a < kept@.len() - 1 {
                let w = choose|w: int| 0 <= w < src && old(kept)@[a] == rows0[w];
                assert(kept@[a] == rows0[w]);
            } else {
                assert(kept@[a] == rows0[src]);
            }
        }
    }
}

/// Whether any order item references the pricing period.
pub open spec fn pricing_used(s: Store, pricing_id: u64) -> bool {
    exists|j: int|
        0 <= j < s.order_items@.len() && (#[trigger] s.order_items@[j]).ticket_pricing_id == Some(
            pricing_id,
        )
}

impl NewTicketPricing {
    /// Validates the prepared period: its start must come strictly
    /// before its end.
    pub fn validate_record(&self) -> (r: Result<(), DatabaseError>)
        ensures
            r is Ok <==> period_valid(self.start_date as int, self.end_date as int),
            r matches Err(e) ==> e.code == ErrorCode::ValidationError,
    {
        if self.start_date < self.end_date {
            Ok(())
        } else {
            Err(
                DatabaseError::with_text(
                    ErrorCode::ValidationError,
                    "Start date must come before end date",
                ),
            )
        }
    }

    /// Commits the period under a fresh id, after validation.
    pub fn commit(&self, store: &mut Store) -> (r: Result<TicketPricing, DatabaseError>)
        requires
            old(store).wf(),
        ensures
            final(store).wf(),
            r is Ok <==> (period_valid(self.start_date as int, self.end_date as int) && old(
                store,
            ).next_row_id < u64::MAX),
            match r {
                Ok(p) => {
                    &&& period_valid(self.start_date as int, self.end_date as int)
                    &&& p.ticket_type_id == self.ticket_type_id
                    &&& p.name@ == self.name@
                    &&& p.status == self.status
                    &&& p.price_in_cents == self.price_in_cents
                    &&& p.start_date == self.start_date
                    &&& p.end_date == self.end_date
                    &&& p.is_box_office_only == self.is_box_office_only
                    &&& final(store).ticket_pricing@ == old(store).ticket_pricing@.push(p)
                    &&& (*final(store) == Store {
                        ticket_pricing: final(store).ticket_pricing,
                        next_row_id: final(store).next_row_id,
                        ..*old(store)
                    })
                },
                Err(e) => {
                    &&& *final(store) == *old(store)
                    &&& (e.code == ErrorCode::ValidationError <==> !period_valid(
                        self.start_date as int,
                        self.end_date as int,
                    ))
                    &&& (e.code == ErrorCode::InsertError ==> old(store).next_row_id == u64::MAX)
                    &&& (e.code == ErrorCode::ValidationError || e.code == ErrorCode::InsertError)
                },
            },
    {
        if let Err(e) = self.validate_record() {
            return Err(e);
        }
        let id = match store.fresh_row_id() {
            Some(v) => v,
            None => {
                return Err(
                    DatabaseError::with_text(
                        ErrorCode::InsertError,
                        "Could not create ticket pricing",
                    ),
                );
            },
        };
        let row = TicketPricing {
            id,
            ticket_type_id: self.ticket_type_id,
            name: self.name.clone(),
            status: self.status,
            price_in_cents: self.price_in_cents,
            start_date: self.start_date,
            end_date: self.end_date,
            is_box_office_only: self.is_box_office_only,
        };
        let result = row.clone();
        proof {
            assert(forall|i: int|
                0 <= i < store.ticket_pricing@.len() ==> (#[trigger] store.ticket_pricing@[i]).id
                    != id);
        }
        store.ticket_pricing.push(row);
        proof {
            assert(store.wf());
        }
        Ok(result)
    }
}

} // verus!

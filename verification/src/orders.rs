//! Orders and their line items, as far as the outbox pipeline needs them:
//! creation, the cart query, checkout, and the line-item scan that the
//! order payload builder aggregates over.

use vstd::prelude::*;

use crate::enums::OrderItemTypes;
use crate::enums::OrderStatus;
use crate::enums::OrderTypes;
use crate::errors::DatabaseError;
use crate::errors::ErrorCode;
use crate::lookup::lemma_filter_take_step;
use crate::lookup::lemma_take_all;
use crate::store::has_order;
use crate::store::Store;

verus! {

/// How long a fresh cart stays open, in seconds.
pub const CART_EXPIRY_SECONDS: i64 = 900;

/// The largest absolute unit price the store accepts, in cents. Keeping
/// every line item inside these bounds lets the payload aggregation be
/// proved free of overflow.
pub const MAX_UNIT_PRICE_CENTS: i64 = 1_000_000_000;

/// The largest quantity a single line item may carry.
pub const MAX_ITEM_QUANTITY: i64 = 1_000_000;

/// An order row.
#[derive(Clone, Copy, Debug, PartialEq, Eq, Structural)]
pub struct Order {
    pub id: u64,
    pub user_id: u64,
    /// When the order was placed on someone's behalf, payloads are
    /// attributed to that user instead.
    pub on_behalf_of_user_id: Option<u64>,
    pub status: OrderStatus,
    pub order_type: OrderTypes,
    pub expires_at: i64,
    pub created_at: i64,
}

/// An order prepared but not yet committed.
#[derive(Clone, Copy, Debug, PartialEq, Eq, Structural)]
pub struct NewOrder {
    pub user_id: u64,
    pub on_behalf_of_user_id: Option<u64>,
    pub status: OrderStatus,
    pub order_type: OrderTypes,
    pub expires_at_offset: i64,
}

/// A line item of an order. `refunded_quantity` never exceeds `quantity`.
#[derive(Clone, Copy, Debug, PartialEq, Eq, Structural)]
pub struct OrderItem {
    pub id: u64,
    pub order_id: u64,
    pub item_type: OrderItemTypes,
    pub unit_price_in_cents: i64,
    pub quantity: i64,
    pub refunded_quantity: i64,
    pub ticket_type_id: Option<u64>,
    pub ticket_instance_id: Option<u64>,
    pub ticket_pricing_id: Option<u64>,
}

/// The bounds every stored line item satisfies.
pub open spec fn item_bounded(it: OrderItem) -> bool {
    &&& -MAX_UNIT_PRICE_CENTS <= it.unit_price_in_cents <= MAX_UNIT_PRICE_CENTS
    &&& 0 <= it.quantity <= MAX_ITEM_QUANTITY
    &&& 0 <= it.refunded_quantity <= it.quantity
}

/// The predicate selecting the items of one order.
pub open spec fn item_of_order(order_id: u64) -> spec_fn(OrderItem) -> bool {
    |it: OrderItem| it.order_id == order_id
}

/// The predicate of the cart query: an open cart of the given user.
pub open spec fn is_cart_of(user_id: u64) -> spec_fn(Order) -> bool {
    |o: Order| o.user_id == user_id && o.status == OrderStatus::Draft && o.order_type
        == OrderTypes::Cart
}

impl Order {
    /// Prepares a new draft cart-style order; once committed it expires a
    /// fixed time after its creation time.
    pub fn create(user_id: u64, order_type: OrderTypes) -> (r: NewOrder)
        ensures
            r.user_id == user_id,
            r.on_behalf_of_user_id is None,
            r.status == OrderStatus::Draft,
            r.order_type == order_type,
            r.expires_at_offset == CART_EXPIRY_SECONDS,
    {
        NewOrder {
            user_id,
            on_behalf_of_user_id: None,
            status: OrderStatus::Draft,
            order_type,
            expires_at_offset: CART_EXPIRY_SECONDS,
        }
    }

    /// The order's current status.
    pub fn status(&self) -> (r: OrderStatus)
        ensures
            r == self.status,
    {
        self.status
    }

    /// Finds the open cart of `user_id`: the first draft order of type
    /// cart. Errors when the user has none.
    pub fn find_cart_for_user(user_id: u64, store: &Store) -> (r: Result<Order, DatabaseError>)
        ensures
            match r {
                Ok(o) => store.orders@.filter(is_cart_of(user_id)).len() > 0 && o
                    == store.orders@.filter(is_cart_of(user_id))[0] && store.orders@.contains(o)
                    && is_cart_of(user_id)(o),
                Err(e) => e.is_text(ErrorCode::QueryError, "Could not load cart for user"@)
                    && store.orders@.filter(is_cart_of(user_id)).len() == 0,
            },
    {
        let ghost pred = is_cart_of(user_id);
        let mut i: usize = 0;
        while i < store.orders.len()
            invariant
                pred == is_cart_of(user_id),
                i <= store.orders@.len(),
                store.orders@.take(i as int).filter(pred).len() == 0,
            decreases store.orders@.len() - i,
        {
            let o = &store.orders[i];
            let hit = o.user_id == user_id && o.status == OrderStatus::Draft && o.order_type
                == OrderTypes::Cart;
            if hit {
                proof {
                    lemma_filter_take_step(store.orders@, pred, i as int);
                    lemma_filter_first_hit(store.orders@, pred, i as int);
                }
                return Ok(*o);
            }
            i = i + 1;
            proof {
                lemma_filter_take_step(store.orders@, pred, i - 1);
            }
        }
        proof {
            lemma_take_all(store.orders@);
        }
        Err(DatabaseError::with_text(ErrorCode::QueryError, "Could not load cart for user"))
    }

    /// The items of this order, in insertion order.
    pub fn items(&self, store: &Store) -> (r: Vec<OrderItem>)
        ensures
            r@ == store.order_items@.filter(item_of_order(self.id)),
    {
        order_items_for(self.id, store)
    }

    /// Moves the order into pending payment and writes the row back.
    /// Errors when the store no longer holds the order.
    pub fn checkout(&mut self, store: &mut Store) -> (r: Result<(), DatabaseError>)
        requires
            old(store).wf(),
        ensures
            final(store).wf(),
            (*final(self) == Order { status: OrderStatus::PendingPayment, ..*old(self) }),
            match r {
                Ok(()) => {
                    &&& (*final(store) == Store { orders: final(store).orders, ..*old(store) })
                    &&& exists|i: int|
                        0 <= i < old(store).orders@.len() && (#[trigger] old(
                            store,
                        ).orders@[i]).id == old(self).id && final(store).orders@ == old(
                            store,
                        ).orders@.update(i, *final(self))
                },
                Err(e) => {
                    &&& e.code == ErrorCode::UpdateError
                    &&& !has_order(*old(store), old(self).id)
                    &&& *final(store) == *old(store)
                },
            },
    {
        self.status = OrderStatus::PendingPayment;
        let updated = *self;
        let n = store.orders.len();
        let mut i: usize = 0;
        while i < n
            invariant
                old(store).wf(),
                *store == *old(store),
                n == store.orders@.len(),
                i <= n,
                updated == *self,
                (*self == Order { status: OrderStatus::PendingPayment, ..*old(self) }),
                forall|j: int| 0 <= j < i ==> (#[trigger] store.orders@[j]).id != updated.id,
            decreases n - i,
        {
            let hit = store.orders[i].id == updated.id;
            if hit {
                let ghost orders0 = store.orders@;
                let slot = vstd::std_specs::vec::vec_index_mut(&mut store.orders, i);
                *slot = updated;
                proof {
                    assert(store.orders@ == orders0.update(i as int, updated));
                    assert(forall|a: int|
                        0 <= a < store.orders@.len() ==> (#[trigger] store.orders@[a]).id
                            == orders0[a].id);
                    assert(store.wf());
                }
                return Ok(());
            }
            i = i + 1;
        }
        Err(DatabaseError::with_text(ErrorCode::UpdateError, "Could not update order"))
    }
}

/// Collects the line items of one order.
pub fn order_items_for(order_id: u64, store: &Store) -> (r: Vec<OrderItem>)
    ensures
        r@ == store.order_items@.filter(item_of_order(order_id)),
{
    let ghost pred = item_of_order(order_id);
    let mut r: Vec<OrderItem> = Vec::new();
    let mut i: usize = 0;
    while i < store.order_items.len()
        invariant
            pred == item_of_order(order_id),
            i <= store.order_items@.len(),
            r@ == store.order_items@.take(i as int).filter(pred),
        decreases store.order_items@.len() - i,
    {
        let it = &store.order_items[i];
        if it.order_id == order_id {
            r.push(*it);
        }
        i = i + 1;
        proof {
            lemma_filter_take_step(store.order_items@, pred, i - 1);
        }
    }
    proof {
        lemma_take_all(store.order_items@);
    }
    r
}

impl NewOrder {
    /// Commits the order under a fresh id, created at `now`.
    pub fn commit(&self, now: i64, store: &mut Store) -> (r: Result<Order, DatabaseError>)
        requires
            old(store).wf(),
            now + CART_EXPIRY_SECONDS <= i64::MAX,
            0 <= self.expires_at_offset <= CART_EXPIRY_SECONDS,
        ensures
            final(store).wf(),
            r is Ok <==> old(store).next_row_id < u64::MAX,
            match r {
                Ok(o) => {
                    &&& o.user_id == self.user_id
                    &&& o.on_behalf_of_user_id == self.on_behalf_of_user_id
                    &&& o.status == self.status
                    &&& o.order_type == self.order_type
                    &&& o.expires_at == now + self.expires_at_offset
                    &&& o.created_at == now
                    &&& !has_order(*old(store), o.id)
                    &&& final(store).orders@ == old(store).orders@.push(o)
                    &&& (*final(store) == Store {
                        orders: final(store).orders,
                        next_row_id: final(store).next_row_id,
                        ..*old(store)
                    })
                },
                Err(e) => e.code == ErrorCode::InsertError && old(store).next_row_id == u64::MAX
                    && *final(store) == *old(store),
            },
    {
        let id = match store.fresh_row_id() {
            Some(v) => v,
            None => {
                return Err(
                    DatabaseError::with_text(
                        ErrorCode::InsertError,
                        "Could not create new order",
                    ),
                );
            },
        };
        let order = Order {
            id,
            user_id: self.user_id,
            on_behalf_of_user_id: self.on_behalf_of_user_id,
            status: self.status,
            order_type: self.order_type,
            expires_at: now + self.expires_at_offset,
            created_at: now,
        };
        store.push_order(order);
        Ok(order)
    }
}

/// A hit at `i` after a clean prefix is the head of the filtered result.
proof fn lemma_filter_first_hit<T>(s: Seq<T>, p: spec_fn(T) -> bool, i: int)
    requires
        0 <= i < s.len(),
        s.take(i).filter(p).len() == 0,
        p(s[i]),
    ensures
        s.filter(p).len() > 0,
        s.filter(p)[0] == s[i],
{
    lemma_filter_take_step(s, p, i);
    lemma_filter_take_grow(s, p, i + 1);
}

proof fn lemma_filter_take_grow<T>(s: Seq<T>, p: spec_fn(T) -> bool, i: int)
    requires
        0 <= i <= s.len(),
        s.take(i).filter(p).len() > 0,
    ensures
        s.filter(p).len() > 0,
        s.filter(p)[0] == s.take(i).filter(p)[0],
    decreases s.len() - i,
{
    if i == s.len() {
        lemma_take_all(s);
    } else {
        lemma_filter_take_step(s, p, i);
        lemma_filter_take_grow(s, p, i + 1);
    }
}

} // verus!

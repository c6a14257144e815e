//! The payment gateway: authorizes orders and charges only the orders it
//! authorized.
use crate::types::{OrderDTO, OrderStatus};
use std::collections::HashSet;
use vstd::prelude::*;

verus! {

broadcast use vstd::std_specs::hash::group_hash_axioms;

/// The ids of the orders the gateway has authorized.
#[derive(Debug)]
pub struct PaymentGateway {
    pub authorized_orders: HashSet<u64>,
}

/// The authorized ids after a request for `order_id` with verdict `authorize`.
pub open spec fn authorized_after(authorized: Set<u64>, order_id: u64, authorize: bool) -> Set<u64> {
    if authorize {
        authorized.insert(order_id)
    } else {
        authorized
    }
}

/// What billing `order` answers, given the authorized ids.
pub open spec fn billed(authorized: Set<u64>, order: OrderDTO) -> Option<OrderDTO> {
    if authorized.contains(order.order_id) {
        Some(order)
    } else {
        None
    }
}

impl PaymentGateway {
    /// A gateway that has authorized nothing.
    pub fn new() -> (gateway: PaymentGateway)
        ensures
            gateway.authorized_orders@ == Set::<u64>::empty(),
    {
        PaymentGateway { authorized_orders: HashSet::new() }
    }

    /// Decides an authorization request. `authorize` is the gateway's random
    /// verdict; an authorized order is remembered. The answer is the order
    /// with its status set to `Authorized` or `Unauthorized`.
    pub fn request_authorization(&mut self, order: OrderDTO, authorize: bool) -> (result: OrderDTO)
        ensures
            final(self).authorized_orders@ == authorized_after(old(self).authorized_orders@, order.order_id, authorize),
            result == (OrderDTO {
                status: if authorize { OrderStatus::Authorized } else { OrderStatus::Unauthorized },
                ..order
            }),
    {
        let mut result = order;
        if authorize {
            self.authorized_orders.insert(result.order_id);
            result.status = OrderStatus::Authorized;
        } else {
            result.status = OrderStatus::Unauthorized;
        }
        result
    }

    /// Charges an order: the payment completes, answered with the order
    /// itself, exactly when the order was authorized before.
    pub fn bill_payment(&self, order: OrderDTO) -> (result: Option<OrderDTO>)
        ensures
            result == billed(self.authorized_orders@, order),
    {
        if self.authorized_orders.contains(&order.order_id) {
            Some(order)
        } else {
            None
        }
    }
}

/// Billing follows authorization: after an authorized request, billing
/// the order (in whatever state it is then) succeeds; after a refused
/// request, billing any order answers as it did before; and a request for
/// one order never changes the billing of another.
pub proof fn lemma_billing_follows_authorization(
    authorized: Set<u64>,
    order: OrderDTO,
    authorize: bool,
    later: OrderDTO,
)
    ensures
        authorize && later.order_id == order.order_id ==> billed(authorized_after(authorized, order.order_id, authorize), later) == Some(later),
        !authorize ==> billed(authorized_after(authorized, order.order_id, authorize), later) == billed(authorized, later),
        later.order_id != order.order_id ==> billed(authorized_after(authorized, order.order_id, authorize), later) == billed(authorized, later),
{
}

} // verus!

//! The delivery assigner of a restaurant: keeps the orders that are ready
//! and hands each to the first delivery agent offered for it.
use crate::types::{OrderDTO, OrderStatus, RestaurantInfo};
use std::collections::HashMap;
use vstd::prelude::*;

verus! {

broadcast use vstd::std_specs::hash::group_hash_axioms;

/// What the delivery assigner asks the restaurant to send.
#[derive(Debug)]
pub enum AssignerAction {
    /// Report the order's new status.
    UpdateOrderStatus(OrderDTO),
    /// Ask for delivery agents near the restaurant for the order.
    RequestNearbyDelivery { order: OrderDTO, restaurant_info: RestaurantInfo },
    /// The order is assigned: the delivery agent may pick it up.
    DeliverThisOrder { order: OrderDTO, restaurant_info: RestaurantInfo },
}

/// The orders a restaurant has ready and the delivery agent of each.
#[derive(Debug)]
pub struct DeliveryAssigner {
    /// The restaurant this assigner works for.
    pub restaurant_info: RestaurantInfo,
    /// Orders ready to be dispatched, by order id.
    pub ready_orders: HashMap<u64, OrderDTO>,
    /// The delivery agent assigned to each order, by order id.
    pub orders_delivery: HashMap<u64, String>,
}

/// The order that goes out once `delivery_id` has taken `order`.
pub open spec fn dispatched(order: OrderDTO, delivery_id: String) -> OrderDTO {
    OrderDTO { delivery_id: Some(delivery_id), status: OrderStatus::Delivering, ..order }
}

/// The ready orders after a chef finished `order`.
pub open spec fn ready_after(ready: Map<u64, OrderDTO>, order: OrderDTO) -> Map<u64, OrderDTO> {
    ready.insert(order.order_id, OrderDTO { status: OrderStatus::ReadyForDelivery, ..order })
}

/// What the assigner sends when `delivery_id` is available for `order_id`:
/// the ready order goes out with that agent; an order not ready gets nothing.
pub open spec fn dispatch_actions(
    ready: Map<u64, OrderDTO>,
    info: RestaurantInfo,
    order_id: u64,
    delivery_id: String,
) -> Seq<AssignerAction> {
    if ready.contains_key(order_id) {
        seq![AssignerAction::DeliverThisOrder { order: dispatched(ready[order_id], delivery_id), restaurant_info: info }]
    } else {
        Seq::empty()
    }
}

impl DeliveryAssigner {
    /// An assigner with no ready orders.
    pub fn new(restaurant_info: RestaurantInfo) -> (assigner: DeliveryAssigner)
        ensures
            assigner.restaurant_info == restaurant_info,
            assigner.ready_orders@ == Map::<u64, OrderDTO>::empty(),
            assigner.orders_delivery@ == Map::<u64, String>::empty(),
    {
        DeliveryAssigner { restaurant_info, ready_orders: HashMap::new(), orders_delivery: HashMap::new() }
    }

    /// A chef finished `order`: it is recorded as ready, its new status is
    /// reported and delivery agents are requested for it.
    pub fn order_ready(&mut self, order: OrderDTO) -> (actions: Vec<AssignerAction>)
        ensures
            final(self).ready_orders@ == ready_after(old(self).ready_orders@, order),
            final(self).orders_delivery@ == old(self).orders_delivery@,
            final(self).restaurant_info == old(self).restaurant_info,
            actions@ == seq![
                AssignerAction::UpdateOrderStatus(OrderDTO { status: OrderStatus::ReadyForDelivery, ..order }),
                AssignerAction::RequestNearbyDelivery {
                    order: OrderDTO { status: OrderStatus::ReadyForDelivery, ..order },
                    restaurant_info: old(self).restaurant_info,
                },
            ],
    {
        let mut order = order;
        order.status = OrderStatus::ReadyForDelivery;
        self.ready_orders.insert(order.order_id, order.clone());
        let mut actions: Vec<AssignerAction> = Vec::new();
        actions.push(AssignerAction::UpdateOrderStatus(order.clone()));
        actions.push(AssignerAction::RequestNearbyDelivery { order, restaurant_info: self.restaurant_info.clone() });
        actions
    }

    /// A delivery agent is available for the order `order_id`. When that
    /// order is ready, the agent is recorded for it and the order goes out
    /// with the agent and the status `Delivering`; otherwise nothing happens.
    pub fn delivery_available(&mut self, order_id: u64, delivery_id: String) -> (actions: Vec<AssignerAction>)
        ensures
            final(self).ready_orders@ == old(self).ready_orders@,
            final(self).restaurant_info == old(self).restaurant_info,
            actions@ == dispatch_actions(old(self).ready_orders@, old(self).restaurant_info, order_id, delivery_id),
            old(self).ready_orders@.contains_key(order_id) ==> final(self).orders_delivery@
                == old(self).orders_delivery@.insert(order_id, delivery_id),
            !old(self).ready_orders@.contains_key(order_id) ==> final(self).orders_delivery@
                == old(self).orders_delivery@,
    {
        let mut actions: Vec<AssignerAction> = Vec::new();
        match self.ready_orders.get(&order_id) {
            Some(order) => {
                let mut new_order = order.clone();
                self.orders_delivery.insert(order_id, delivery_id.clone());
                new_order.delivery_id = Some(delivery_id);
                new_order.status = OrderStatus::Delivering;
                actions.push(AssignerAction::DeliverThisOrder {
                    order: new_order,
                    restaurant_info: self.restaurant_info.clone(),
                });
            },
            None => {},
        }
        actions
    }

    /// The order `order_id` was cancelled: it is no longer ready.
    pub fn cancel_order(&mut self, order_id: u64)
        ensures
            final(self).ready_orders@ == old(self).ready_orders@.remove(order_id),
            final(self).orders_delivery@ == old(self).orders_delivery@,
            final(self).restaurant_info == old(self).restaurant_info,
    {
        self.ready_orders.remove(&order_id);
    }
}

/// A cancelled order is never handed to a delivery agent afterwards, even
/// when it was ready: after `cancel_order`, an agent available for it gets
/// nothing, while the other ready orders still go out.
pub proof fn lemma_cancelled_order_not_dispatched(
    ready: Map<u64, OrderDTO>,
    info: RestaurantInfo,
    order: OrderDTO,
    other_id: u64,
    delivery_id: String,
)
    ensures
        dispatch_actions(ready_after(ready, order).remove(order.order_id), info, order.order_id, delivery_id)
            == Seq::<AssignerAction>::empty(),
        other_id != order.order_id ==> dispatch_actions(ready.remove(order.order_id), info, other_id, delivery_id)
            == dispatch_actions(ready, info, other_id, delivery_id),
{
}

/// An order reported ready and then offered a delivery agent goes out,
/// exactly once, with that agent and the status `Delivering`.
pub proof fn lemma_ready_then_available_dispatches(
    ready: Map<u64, OrderDTO>,
    info: RestaurantInfo,
    order: OrderDTO,
    delivery_id: String,
)
    ensures
        dispatch_actions(ready_after(ready, order), info, order.order_id, delivery_id) == seq![
            AssignerAction::DeliverThisOrder {
                order: OrderDTO {
                    delivery_id: Some(delivery_id),
                    status: OrderStatus::Delivering,
                    ..order
                },
                restaurant_info: info,
            },
        ],
{
}

} // verus!

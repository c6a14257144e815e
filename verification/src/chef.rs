//! A chef: cooks the order the kitchen hands over and reports back.
use crate::constants::DEFAULT_TIME_TO_COOK;
use crate::types::{clone_optional_order, OrderDTO, OrderStatus};
use vstd::prelude::*;

verus! {

/// What a chef asks the restaurant to do.
#[derive(Debug)]
pub enum ChefAction {
    /// Hand the order to the delivery assigner: it is ready.
    SendToDeliveryAssigner(OrderDTO),
    /// Tell the kitchen that this chef is idle again, after `order`.
    ReportAvailable(OrderDTO),
    /// Wake the chef when the order is cooked, after this many seconds.
    StartCooking { seconds: u64 },
}

/// A chef and the order in hand.
#[derive(Debug)]
pub struct Chef {
    /// Seconds needed to cook an order.
    pub time_to_cook: u64,
    /// The order currently being prepared.
    pub order: Option<OrderDTO>,
}

impl Chef {
    /// A chef with nothing in hand and the default cooking time.
    pub fn new() -> (chef: Chef)
        ensures
            chef.time_to_cook == DEFAULT_TIME_TO_COOK,
            chef.order is None,
    {
        Chef { time_to_cook: DEFAULT_TIME_TO_COOK, order: None }
    }

    /// Takes an order from the kitchen. An order already ready is passed on
    /// at once; an order being prepared is cooked; any other order is
    /// refused and the chef reports idle.
    pub fn assign(&mut self, order: OrderDTO) -> (actions: Vec<ChefAction>)
        ensures
            final(self).order == Some(order),
            final(self).time_to_cook == old(self).time_to_cook,
            order.status == OrderStatus::ReadyForDelivery ==> actions@ == seq![
                ChefAction::SendToDeliveryAssigner(order),
                ChefAction::ReportAvailable(order),
            ],
            order.status == OrderStatus::Preparing ==> actions@ == seq![
                ChefAction::StartCooking { seconds: old(self).time_to_cook },
            ],
            order.status != OrderStatus::ReadyForDelivery && order.status != OrderStatus::Preparing
                ==> actions@ == seq![ChefAction::ReportAvailable(order)],
    {
        self.order = Some(order.clone());
        let mut actions: Vec<ChefAction> = Vec::new();
        match order.status {
            OrderStatus::ReadyForDelivery => {
                actions.push(ChefAction::SendToDeliveryAssigner(order.clone()));
                actions.push(ChefAction::ReportAvailable(order));
            },
            OrderStatus::Preparing => {
                actions.push(ChefAction::StartCooking { seconds: self.time_to_cook });
            },
            _ => {
                actions.push(ChefAction::ReportAvailable(order));
            },
        }
        actions
    }

    /// The cooking time is over: the order goes to the delivery assigner
    /// and the chef reports idle.
    pub fn finish_cooking(&self) -> (actions: Vec<ChefAction>)
        requires
            self.order is Some,
        ensures
            actions@ == seq![
                ChefAction::SendToDeliveryAssigner(self.order->0),
                ChefAction::ReportAvailable(self.order->0),
            ],
    {
        let order = clone_optional_order(&self.order).unwrap();
        let mut actions: Vec<ChefAction> = Vec::new();
        actions.push(ChefAction::SendToDeliveryAssigner(order.clone()));
        actions.push(ChefAction::ReportAvailable(order));
        actions
    }
}

} // verus!

//! The decisions of a delivery agent: which offers to take, when an order
//! is picked up and delivered, and how to resume after a reconnection.
//! Every step takes the agent's state and an event and gives the new state
//! and the messages to send.
use crate::types::{
    clone_optional_order, Coordinates, DeliveryDTO, DeliveryStatus, OrderDTO, OrderStatus, Timestamp,
    UserDTO,
};
use vstd::prelude::*;

verus! {

/// What a delivery agent asks its runtime to do.
#[derive(Debug)]
pub enum DeliveryAction {
    /// Tell the coordinator that the agent takes `order`.
    AcceptedOrder { order: OrderDTO, delivery_info: DeliveryDTO },
    /// Tell the coordinator that the agent is free.
    IAmAvailable { delivery_info: DeliveryDTO },
    /// Report the order's new state to the coordinator.
    UpdateOrderStatus(OrderDTO),
    /// Report to the coordinator that the order was delivered.
    OrderDelivered(OrderDTO),
    /// Deliver `order` to the agent itself once `delay_ms` milliseconds have passed.
    ScheduleOrderDelivered { order: OrderDTO, delay_ms: u64 },
}

/// The state of a delivery agent.
#[derive(Debug)]
pub struct Delivery {
    /// Unique id of the agent.
    pub delivery_id: String,
    /// Where the agent is.
    pub position: Coordinates,
    /// What the agent is doing.
    pub status: DeliveryStatus,
    /// The order taken, if any.
    pub current_order: Option<OrderDTO>,
    /// Whether the agent already went through recovery after connecting.
    pub already_connected: bool,
}

/// Whether `order` is the order the agent holds.
pub open spec fn holds_order(current: Option<OrderDTO>, order_id: u64) -> bool {
    current matches Some(o) && o.order_id == order_id
}

/// The agent's description sent when it takes `order`.
pub open spec fn taking_info(d: Delivery, order: OrderDTO, now: Timestamp) -> DeliveryDTO {
    DeliveryDTO {
        delivery_position: d.position,
        delivery_id: d.delivery_id,
        current_client_id: Some(order.client_id),
        current_order: Some(order),
        status: DeliveryStatus::WaitingConfirmation,
        time_stamp: now,
    }
}

/// The agent's description sent when it becomes free.
pub open spec fn free_info(d: Delivery, now: Timestamp) -> DeliveryDTO {
    DeliveryDTO {
        delivery_position: d.position,
        delivery_id: d.delivery_id,
        current_client_id: None,
        current_order: None,
        status: DeliveryStatus::Available,
        time_stamp: now,
    }
}

/// The agent after an offer of `order`, and what it sends.
pub open spec fn after_new_offer(d: Delivery, order: OrderDTO, accept: bool, now: Timestamp) -> (Delivery, Seq<DeliveryAction>) {
    if d.status == DeliveryStatus::Available && accept {
        (
            Delivery { current_order: Some(order), status: DeliveryStatus::WaitingConfirmation, ..d },
            seq![DeliveryAction::AcceptedOrder { order, delivery_info: taking_info(d, order, now) }],
        )
    } else {
        (d, Seq::empty())
    }
}

/// The agent after being told that `order_id` went to another agent.
pub open spec fn after_no_needed(d: Delivery, order_id: u64) -> Delivery {
    if holds_order(d.current_order, order_id) {
        Delivery { current_order: None, status: DeliveryStatus::Available, ..d }
    } else {
        d
    }
}

/// The agent after the confirmation to deliver `order`, and what it sends.
pub open spec fn after_deliver_this_order(d: Delivery, order: OrderDTO, delay_ms: u64) -> (Delivery, Seq<DeliveryAction>) {
    if holds_order(d.current_order, order.order_id) {
        (
            Delivery { position: order.client_position, status: DeliveryStatus::Delivering, ..d },
            seq![
                DeliveryAction::UpdateOrderStatus(OrderDTO { expected_delivery_time: delay_ms, ..order }),
                DeliveryAction::ScheduleOrderDelivered { order, delay_ms },
            ],
        )
    } else {
        (d, Seq::empty())
    }
}

/// The agent after the journey with `order` ended, and what it sends.
pub open spec fn after_order_delivered(d: Delivery, order: OrderDTO, now: Timestamp) -> (Delivery, Seq<DeliveryAction>) {
    if holds_order(d.current_order, order.order_id) {
        (
            Delivery { current_order: None, status: DeliveryStatus::Available, ..d },
            seq![
                DeliveryAction::OrderDelivered(OrderDTO { status: OrderStatus::Delivered, ..order }),
                DeliveryAction::IAmAvailable { delivery_info: free_info(d, now) },
            ],
        )
    } else {
        (d, Seq::empty())
    }
}

/// The agent after the coordinator reported that it kept nothing for it:
/// free, without an order, and announcing that it is available.
pub open spec fn after_no_recovered_info(d: Delivery, now: Timestamp) -> (Delivery, Seq<DeliveryAction>) {
    (
        Delivery { already_connected: true, status: DeliveryStatus::Available, current_order: None, ..d },
        seq![DeliveryAction::IAmAvailable { delivery_info: free_info(d, now) }],
    )
}

/// The agent after resuming from the recovered description `dto`, and what it sends.
pub open spec fn after_recovery(d: Delivery, dto: DeliveryDTO, delay_ms: u64) -> (Delivery, Seq<DeliveryAction>) {
    let base = Delivery {
        position: dto.delivery_position,
        status: dto.status,
        current_order: dto.current_order,
        already_connected: true,
        ..d
    };
    match (dto.status, dto.current_order) {
        (DeliveryStatus::WaitingConfirmation, Some(order)) => (
            base,
            seq![DeliveryAction::AcceptedOrder { order, delivery_info: dto }],
        ),
        (DeliveryStatus::Delivering, Some(order)) => (
            Delivery { position: order.client_position, ..base },
            seq![
                DeliveryAction::UpdateOrderStatus(OrderDTO { expected_delivery_time: delay_ms, ..order }),
                DeliveryAction::ScheduleOrderDelivered {
                    order: OrderDTO { expected_delivery_time: delay_ms, ..order },
                    delay_ms,
                },
            ],
        ),
        (DeliveryStatus::WaitingConfirmation, None) | (DeliveryStatus::Delivering, None) => (
            Delivery { status: DeliveryStatus::Available, ..base },
            seq![DeliveryAction::IAmAvailable { delivery_info: dto }],
        ),
        _ => (base, Seq::empty()),
    }
}

/// The agent after a recovery message, and what it sends: only the first
/// recovery of a connection, with an agent's description, has an effect.
pub open spec fn after_recover(d: Delivery, user_info: UserDTO, delay_ms: u64) -> (Delivery, Seq<DeliveryAction>) {
    match user_info {
        UserDTO::Delivery(dto) => if d.already_connected {
            (d, Seq::empty())
        } else {
            after_recovery(d, dto, delay_ms)
        },
        _ => (d, Seq::empty()),
    }
}

impl Delivery {
    /// An agent busy with an order holds that order.
    pub open spec fn well_formed(&self) -> bool {
        (self.status == DeliveryStatus::WaitingConfirmation || self.status == DeliveryStatus::Delivering)
            ==> self.current_order is Some
    }

    /// A new agent, free, at `position`.
    pub fn new(delivery_id: String, position: Coordinates) -> (d: Delivery)
        ensures
            d.delivery_id == delivery_id,
            d.position == position,
            d.status == DeliveryStatus::Available,
            d.current_order is None,
            !d.already_connected,
            d.well_formed(),
    {
        Delivery {
            delivery_id,
            position,
            status: DeliveryStatus::Available,
            current_order: None,
            already_connected: false,
        }
    }

    /// A free agent offered `order` takes it when `accept` (the agent's own
    /// random choice) says so, and waits for the confirmation. An agent that
    /// is not free ignores the offer.
    pub fn new_offer(&mut self, order: OrderDTO, accept: bool, now: Timestamp) -> (actions: Vec<DeliveryAction>)
        ensures
            (*final(self), actions@) == after_new_offer(*old(self), order, accept, now),
            old(self).well_formed() ==> final(self).well_formed(),
    {
        let mut actions: Vec<DeliveryAction> = Vec::new();
        match self.status {
            DeliveryStatus::Available => {
                if !accept {
                    return actions;
                }
                self.current_order = Some(order.clone());
                self.status = DeliveryStatus::WaitingConfirmation;
                let info = DeliveryDTO {
                    delivery_position: self.position,
                    delivery_id: self.delivery_id.clone(),
                    current_client_id: Some(order.client_id.clone()),
                    current_order: Some(order.clone()),
                    status: self.status,
                    time_stamp: now,
                };
                actions.push(DeliveryAction::AcceptedOrder { order, delivery_info: info });
            },
            _ => {},
        }
        actions
    }

    /// Another agent was chosen for `order_id`: if it is the order held, the
    /// agent drops it and is free again.
    pub fn delivery_no_needed(&mut self, order_id: u64)
        ensures
            *final(self) == after_no_needed(*old(self), order_id),
            old(self).well_formed() ==> final(self).well_formed(),
    {
        let matches = match &self.current_order {
            Some(current) => current.order_id == order_id,
            None => false,
        };
        if matches {
            self.current_order = None;
            self.status = DeliveryStatus::Available;
        }
    }

    /// The restaurant confirmed the agent for `order`: the agent reports the
    /// expected delivery time, sets off and is at the client when the
    /// journey of `delay_ms` milliseconds is over. An order the agent does
    /// not hold is ignored.
    pub fn deliver_this_order(&mut self, order: OrderDTO, delay_ms: u64) -> (actions: Vec<DeliveryAction>)
        ensures
            (*final(self), actions@) == after_deliver_this_order(*old(self), order, delay_ms),
            old(self).well_formed() ==> final(self).well_formed(),
    {
        let mut actions: Vec<DeliveryAction> = Vec::new();
        let matches = match &self.current_order {
            Some(current) => current.order_id == order.order_id,
            None => false,
        };
        if matches {
            let mut reported = order.clone();
            reported.expected_delivery_time = delay_ms;
            actions.push(DeliveryAction::UpdateOrderStatus(reported));
            self.position = order.client_position;
            self.status = DeliveryStatus::Delivering;
            actions.push(DeliveryAction::ScheduleOrderDelivered { order, delay_ms });
        }
        actions
    }

    /// The journey with `order` is over: if it is the order held, the agent
    /// reports it delivered, drops it and announces that it is free.
    pub fn order_delivered(&mut self, order: OrderDTO, now: Timestamp) -> (actions: Vec<DeliveryAction>)
        ensures
            (*final(self), actions@) == after_order_delivered(*old(self), order, now),
            old(self).well_formed() ==> final(self).well_formed(),
    {
        let mut actions: Vec<DeliveryAction> = Vec::new();
        let matches = match &self.current_order {
            Some(current) => current.order_id == order.order_id,
            None => false,
        };
        if matches {
            let mut delivered = order;
            delivered.status = OrderStatus::Delivered;
            actions.push(DeliveryAction::OrderDelivered(delivered));
            self.current_order = None;
            self.status = DeliveryStatus::Available;
            let info = DeliveryDTO {
                delivery_position: self.position,
                delivery_id: self.delivery_id.clone(),
                current_client_id: None,
                current_order: None,
                status: self.status,
                time_stamp: now,
            };
            actions.push(DeliveryAction::IAmAvailable { delivery_info: info });
        }
        actions
    }

    /// Whether recovered information belongs to this agent.
    pub fn owns_recovered_info(&self, user_info: &UserDTO) -> (result: bool)
        ensures
            result == (user_info matches UserDTO::Delivery(dto) && dto.delivery_id@ == self.delivery_id@),
    {
        match user_info {
            UserDTO::Delivery(dto) => dto.delivery_id == self.delivery_id,
            _ => false,
        }
    }

    /// The coordinator has nothing to recover: the agent starts afresh,
    /// free and without an order, and announces that it is available.
    pub fn no_recovered_info(&mut self, now: Timestamp) -> (actions: Vec<DeliveryAction>)
        ensures
            (*final(self), actions@) == after_no_recovered_info(*old(self), now),
            final(self).well_formed(),
    {
        self.already_connected = true;
        self.status = DeliveryStatus::Available;
        self.current_order = None;
        let info = DeliveryDTO {
            delivery_position: self.position,
            delivery_id: self.delivery_id.clone(),
            current_client_id: None,
            current_order: None,
            status: DeliveryStatus::Available,
            time_stamp: now,
        };
        let mut actions: Vec<DeliveryAction> = Vec::new();
        actions.push(DeliveryAction::IAmAvailable { delivery_info: info });
        actions
    }

    /// Resumes from the state the coordinator kept, once per connection. An
    /// agent that was waiting for a confirmation accepts its order again; one
    /// that was delivering finishes the journey, of `delay_ms` milliseconds
    /// from the recovered position; one that lost its order is free.
    pub fn recover(&mut self, user_info: UserDTO, delay_ms: u64) -> (actions: Vec<DeliveryAction>)
        ensures
            (*final(self), actions@) == after_recover(*old(self), user_info, delay_ms),
            old(self).well_formed() ==> final(self).well_formed(),
    {
        let mut actions: Vec<DeliveryAction> = Vec::new();
        if self.already_connected {
            return actions;
        }
        let dto = match user_info {
            UserDTO::Delivery(dto) => dto,
            _ => {
                return actions;
            },
        };
        self.already_connected = true;
        self.position = dto.delivery_position;
        self.status = dto.status;
        self.current_order = clone_optional_order(&dto.current_order);
        match self.status {
            DeliveryStatus::WaitingConfirmation => {
                match clone_optional_order(&self.current_order) {
                    Some(order) => {
                        actions.push(DeliveryAction::AcceptedOrder { order, delivery_info: dto });
                    },
                    None => {
                        self.status = DeliveryStatus::Available;
                        actions.push(DeliveryAction::IAmAvailable { delivery_info: dto });
                    },
                }
            },
            DeliveryStatus::Delivering => {
                match clone_optional_order(&self.current_order) {
                    Some(order) => {
                        let mut order = order;
                        order.expected_delivery_time = delay_ms;
                        actions.push(DeliveryAction::UpdateOrderStatus(order.clone()));
                        self.position = order.client_position;
                        actions.push(DeliveryAction::ScheduleOrderDelivered { order, delay_ms });
                    },
                    None => {
                        self.status = DeliveryStatus::Available;
                        actions.push(DeliveryAction::IAmAvailable { delivery_info: dto });
                    },
                }
            },
            _ => {},
        }
        actions
    }
}

/// The agent's life cycle: a free agent that takes an offer waits for the
/// confirmation; a waiting agent becomes free when another agent is chosen
/// and delivering when it is confirmed; a delivering agent is free again,
/// having reported the delivery, once the journey ends.
pub proof fn lemma_delivery_life_cycle(d: Delivery, order: OrderDTO, delay_ms: u64, now: Timestamp)
    ensures
        d.status == DeliveryStatus::Available ==> {
            &&& after_new_offer(d, order, true, now).0.status == DeliveryStatus::WaitingConfirmation
            &&& after_new_offer(d, order, true, now).0.current_order == Some(order)
            &&& after_new_offer(d, order, true, now).1[0] is AcceptedOrder
            &&& after_new_offer(d, order, false, now) == (d, Seq::<DeliveryAction>::empty())
        },
        d.status != DeliveryStatus::Available ==> after_new_offer(d, order, true, now) == (d, Seq::<DeliveryAction>::empty()),
        holds_order(d.current_order, order.order_id) ==> {
            &&& after_no_needed(d, order.order_id).status == DeliveryStatus::Available
            &&& after_no_needed(d, order.order_id).current_order is None
            &&& after_deliver_this_order(d, order, delay_ms).0.status == DeliveryStatus::Delivering
            &&& after_deliver_this_order(d, order, delay_ms).0.position == order.client_position
            &&& after_order_delivered(d, order, now).0.status == DeliveryStatus::Available
            &&& after_order_delivered(d, order, now).0.current_order is None
            &&& after_order_delivered(d, order, now).1[0] == DeliveryAction::OrderDelivered(
                OrderDTO { status: OrderStatus::Delivered, ..order },
            )
            &&& after_order_delivered(d, order, now).1[1] is IAmAvailable
        },
{
}

/// A reconnected agent resumes where it was: it offers again the order it
/// was waiting to confirm, finishes the delivery it was making, and is free
/// when the coordinator kept no order for it; when the coordinator kept
/// nothing at all, it announces that it is available.
pub proof fn lemma_recovery_resumes(d: Delivery, dto: DeliveryDTO, delay_ms: u64, now: Timestamp)
    requires
        !d.already_connected,
    ensures
        after_recover(d, UserDTO::Delivery(dto), delay_ms).0.already_connected,
        dto.current_order is Some && dto.status == DeliveryStatus::WaitingConfirmation ==> {
            &&& after_recover(d, UserDTO::Delivery(dto), delay_ms).0.status == DeliveryStatus::WaitingConfirmation
            &&& after_recover(d, UserDTO::Delivery(dto), delay_ms).1[0] is AcceptedOrder
        },
        dto.current_order is Some && dto.status == DeliveryStatus::Delivering ==> {
            &&& after_recover(d, UserDTO::Delivery(dto), delay_ms).0.status == DeliveryStatus::Delivering
            &&& after_recover(d, UserDTO::Delivery(dto), delay_ms).1[1] is ScheduleOrderDelivered
        },
        dto.current_order is None && (dto.status == DeliveryStatus::WaitingConfirmation || dto.status
            == DeliveryStatus::Delivering) ==> {
            &&& after_recover(d, UserDTO::Delivery(dto), delay_ms).0.status == DeliveryStatus::Available
            &&& after_recover(d, UserDTO::Delivery(dto), delay_ms).1[0] is IAmAvailable
        },
        after_recover(after_recover(d, UserDTO::Delivery(dto), delay_ms).0, UserDTO::Delivery(dto), delay_ms).1.len() == 0,
        after_no_recovered_info(d, now).0.status == DeliveryStatus::Available,
        after_no_recovered_info(d, now).0.already_connected,
        after_no_recovered_info(d, now).1 == seq![DeliveryAction::IAmAvailable { delivery_info: free_info(d, now) }],
{
}

/// A free agent that takes an offer tells the coordinator, in one message,
/// that it now waits for the confirmation of exactly that order: the
/// description it sends names the agent, where it is, the order as its
/// current order and the order's client.
pub proof fn lemma_accepted_offer_reports_the_order(d: Delivery, order: OrderDTO, now: Timestamp)
    requires
        d.status == DeliveryStatus::Available,
    ensures
        after_new_offer(d, order, true, now).1.len() == 1,
        after_new_offer(d, order, true, now).1[0] matches DeliveryAction::AcceptedOrder { order: sent, delivery_info: info }
            && sent == order
            && info.current_order == Some(order)
            && info.current_client_id == Some(order.client_id)
            && info.delivery_id == d.delivery_id
            && info.delivery_position == d.position
            && info.status == DeliveryStatus::WaitingConfirmation
            && info.time_stamp == now,
        after_new_offer(d, order, true, now).0.current_order == Some(order),
        after_new_offer(d, order, true, now).0.status == DeliveryStatus::WaitingConfirmation,
        after_new_offer(d, order, true, now).0.delivery_id == d.delivery_id,
        after_new_offer(d, order, true, now).0.position == d.position,
{
}

} // verus!

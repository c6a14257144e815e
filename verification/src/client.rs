//! The decisions of a client: placing its order, following the order's
//! updates, and the delivery timer that closes an order whose delivery
//! report never came.
use crate::constants::BASE_DELAY_MILLIS;
use crate::random::random_in_range;
use crate::types::{
    clone_optional_order, ClientDTO, Coordinates, OrderDTO, OrderStatus, Timestamp, UserDTO,
};
use vstd::prelude::*;

verus! {

/// What a client asks its runtime to do.
#[derive(Debug)]
pub enum ClientAction {
    /// Ask the coordinator for the restaurants near the client.
    RequestNearbyRestaurants(ClientDTO),
    /// Place an order.
    RequestThisOrder(OrderDTO),
    /// Report to the coordinator that the order was delivered.
    OrderDelivered(OrderDTO),
    /// Tell the coordinator that the order is over, delivered or cancelled.
    OrderFinalized(OrderDTO),
    /// Start the delivery timer, to fire after this many milliseconds.
    StartDeliveryTimer { millis: u64 },
    /// Cancel the running delivery timer.
    CancelDeliveryTimer,
    /// Stop the client: its order is over.
    Stop,
}

/// The state of a client.
#[derive(Debug)]
pub struct Client {
    /// Unique id of the client.
    pub client_id: String,
    /// Where the client is.
    pub client_position: Coordinates,
    /// The client's current order, if any.
    pub client_order: Option<OrderDTO>,
    /// Whether the delivery timer is running.
    pub delivery_timer_running: bool,
    /// Whether the client already went through recovery after connecting.
    pub already_connected: bool,
}

/// The milliseconds the client waits for an order on its way: the expected
/// delivery time plus the base delay, both in milliseconds, capped at the
/// largest `u64`.
pub open spec fn delivery_wait_millis(order: OrderDTO) -> u64 {
    if order.expected_delivery_time + BASE_DELAY_MILLIS > u64::MAX {
        u64::MAX
    } else {
        (order.expected_delivery_time + BASE_DELAY_MILLIS) as u64
    }
}

/// The description of the client sent when it has no order.
pub open spec fn idle_client(c: Client, now: Timestamp) -> ClientDTO {
    ClientDTO { client_position: c.client_position, client_id: c.client_id, client_order: None, time_stamp: now }
}

/// The order a client places for `dish_name` at `restaurant_id`.
pub open spec fn requested_order(c: Client, restaurant_id: String, dish_name: String, order_id: u64, now: Timestamp) -> OrderDTO {
    OrderDTO {
        order_id,
        dish_name,
        client_id: c.client_id,
        restaurant_id,
        delivery_id: None,
        status: OrderStatus::Requested,
        client_position: c.client_position,
        expected_delivery_time: 0,
        time_stamp: now,
    }
}

/// The client after an update of `order`, and what it does about the
/// delivery timer: an order of another client changes nothing; an order on
/// its way (re)starts the timer; any other order stops a running timer.
pub open spec fn after_delivery_time(c: Client, order: OrderDTO) -> (Client, Seq<ClientAction>) {
    if order.client_id@ != c.client_id@ {
        (c, Seq::empty())
    } else if order.status == OrderStatus::Delivering {
        (
            Client { delivery_timer_running: true, ..c },
            (if c.delivery_timer_running { seq![ClientAction::CancelDeliveryTimer] } else { Seq::empty() })
                + seq![ClientAction::StartDeliveryTimer { millis: delivery_wait_millis(order) }],
        )
    } else {
        (
            Client { delivery_timer_running: false, ..c },
            if c.delivery_timer_running { seq![ClientAction::CancelDeliveryTimer] } else { Seq::empty() },
        )
    }
}

/// Whether an order in this status ends the client's session.
pub open spec fn ends_session(status: OrderStatus) -> bool {
    status == OrderStatus::Delivered || status == OrderStatus::Unauthorized || status == OrderStatus::Cancelled
}

/// Whether an order in this status is reported back as finalized.
pub open spec fn finalizes(status: OrderStatus) -> bool {
    status == OrderStatus::Delivered || status == OrderStatus::Cancelled
}

/// The client after the coordinator reported `order`, and what it does: the
/// order is recorded; a delivered or cancelled order is reported back as
/// finalized; the delivery timer follows the order; and a final status
/// stops the client, last.
pub open spec fn after_order_update(c: Client, order: OrderDTO) -> (Client, Seq<ClientAction>) {
    let recorded = Client { client_order: Some(order), ..c };
    let timer = after_delivery_time(recorded, order);
    (
        timer.0,
        (if finalizes(order.status) { seq![ClientAction::OrderFinalized(order)] } else { Seq::empty() })
            + timer.1
            + (if ends_session(order.status) { seq![ClientAction::Stop] } else { Seq::empty() }),
    )
}

/// The client after the delivery timer fired, and what it sends: an order
/// that was not reported delivered is closed as delivered by the client.
pub open spec fn after_timer(c: Client) -> (Client, Seq<ClientAction>) {
    match c.client_order {
        Some(order) => if order.status == OrderStatus::Delivered {
            (Client { delivery_timer_running: false, ..c }, Seq::empty())
        } else {
            (
                Client {
                    client_order: Some(OrderDTO { status: OrderStatus::Delivered, ..order }),
                    delivery_timer_running: false,
                    ..c
                },
                seq![ClientAction::OrderDelivered(OrderDTO { status: OrderStatus::Delivered, ..order })],
            )
        },
        None => (Client { delivery_timer_running: false, ..c }, Seq::empty()),
    }
}

/// The client after the coordinator cancelled the order `order_id`, and
/// what it does: its own order, or the lack of any order, ends the session.
pub open spec fn after_cancel(c: Client, order_id: u64) -> (Client, Seq<ClientAction>) {
    match c.client_order {
        Some(order) => if order.order_id == order_id {
            (Client { client_order: None, ..c }, seq![ClientAction::Stop])
        } else {
            (c, Seq::empty())
        },
        None => (c, seq![ClientAction::Stop]),
    }
}

/// The client after a recovery message, and what it does: once per
/// connection, its own description gives back its location and order; a
/// finished order ends the session and no order starts a new one.
pub open spec fn after_recover(c: Client, user_info: UserDTO, now: Timestamp) -> (Client, Seq<ClientAction>) {
    match user_info {
        UserDTO::Client(dto) => if c.already_connected || dto.client_id@ != c.client_id@ {
            (c, Seq::empty())
        } else {
            let r = Client {
                client_position: dto.client_position,
                client_order: dto.client_order,
                already_connected: true,
                ..c
            };
            match dto.client_order {
                Some(order) => if order.status == OrderStatus::Cancelled || order.status == OrderStatus::Delivered {
                    (r, seq![ClientAction::Stop])
                } else {
                    (r, Seq::empty())
                },
                None => (r, seq![ClientAction::RequestNearbyRestaurants(idle_client(r, now))]),
            }
        },
        _ => (c, Seq::empty()),
    }
}

impl Client {
    /// A client with no order, at `client_position`.
    pub fn new(client_id: String, client_position: Coordinates) -> (c: Client)
        ensures
            c.client_id == client_id,
            c.client_position == client_position,
            c.client_order is None,
            !c.delivery_timer_running,
            !c.already_connected,
    {
        Client { client_id, client_position, client_order: None, delivery_timer_running: false, already_connected: false }
    }

    /// Follows an update of `order` with the delivery timer.
    pub fn manage_delivery_time(&mut self, order: &OrderDTO) -> (actions: Vec<ClientAction>)
        ensures
            (*final(self), actions@) == after_delivery_time(*old(self), *order),
    {
        let mut actions: Vec<ClientAction> = Vec::new();
        if order.client_id != self.client_id {
            return actions;
        }
        if self.delivery_timer_running {
            actions.push(ClientAction::CancelDeliveryTimer);
        }
        if order.status == OrderStatus::Delivering {
            let millis = order.expected_delivery_time.saturating_add(BASE_DELAY_MILLIS);
            actions.push(ClientAction::StartDeliveryTimer { millis });
            self.delivery_timer_running = true;
        } else {
            self.delivery_timer_running = false;
        }
        proof {
            assert(actions@ =~= after_delivery_time(*old(self), *order).1);
        }
        actions
    }

    /// Handles an order update from the coordinator.
    pub fn notify_order_updated(&mut self, order: OrderDTO) -> (actions: Vec<ClientAction>)
        ensures
            (*final(self), actions@) == after_order_update(*old(self), order),
    {
        self.client_order = Some(order.clone());
        let mut actions: Vec<ClientAction> = Vec::new();
        if order.status == OrderStatus::Delivered || order.status == OrderStatus::Cancelled {
            actions.push(ClientAction::OrderFinalized(order.clone()));
        }
        let mut timer_actions = self.manage_delivery_time(&order);
        actions.append(&mut timer_actions);
        if order.status == OrderStatus::Delivered || order.status == OrderStatus::Unauthorized
            || order.status == OrderStatus::Cancelled {
            actions.push(ClientAction::Stop);
        }
        proof {
            assert(actions@ =~= after_order_update(*old(self), order).1);
        }
        actions
    }

    /// The delivery timer fired.
    pub fn delivery_timer_elapsed(&mut self) -> (actions: Vec<ClientAction>)
        ensures
            (*final(self), actions@) == after_timer(*old(self)),
    {
        let mut actions: Vec<ClientAction> = Vec::new();
        match clone_optional_order(&self.client_order) {
            Some(order) => {
                if order.status != OrderStatus::Delivered {
                    let mut order = order;
                    order.status = OrderStatus::Delivered;
                    self.client_order = Some(order.clone());
                    actions.push(ClientAction::OrderDelivered(order));
                }
            },
            None => {},
        }
        self.delivery_timer_running = false;
        actions
    }

    /// The coordinator cancelled the order `order_id`.
    pub fn cancel_order(&mut self, order_id: u64) -> (actions: Vec<ClientAction>)
        ensures
            (*final(self), actions@) == after_cancel(*old(self), order_id),
    {
        let mut actions: Vec<ClientAction> = Vec::new();
        let (has_order, is_this_order) = match &self.client_order {
            Some(order) => (true, order.order_id == order_id),
            None => (false, false),
        };
        if !has_order {
            actions.push(ClientAction::Stop);
        } else if is_this_order {
            self.client_order = None;
            actions.push(ClientAction::Stop);
        }
        actions
    }

    /// The connection to the coordinator was lost: the delivery timer is
    /// cancelled, to be started again by the next update.
    pub fn connection_closed(&mut self) -> (actions: Vec<ClientAction>)
        ensures
            *final(self) == (Client { delivery_timer_running: false, ..*old(self) }),
            actions@ == (if old(self).delivery_timer_running {
                seq![ClientAction::CancelDeliveryTimer]
            } else {
                Seq::<ClientAction>::empty()
            }),
    {
        let mut actions: Vec<ClientAction> = Vec::new();
        if self.delivery_timer_running {
            actions.push(ClientAction::CancelDeliveryTimer);
            self.delivery_timer_running = false;
        }
        actions
    }

    /// Resumes from the state the coordinator kept.
    pub fn recover(&mut self, user_info: UserDTO, now: Timestamp) -> (actions: Vec<ClientAction>)
        ensures
            (*final(self), actions@) == after_recover(*old(self), user_info, now),
    {
        let mut actions: Vec<ClientAction> = Vec::new();
        if self.already_connected {
            return actions;
        }
        match user_info {
            UserDTO::Client(dto) => {
                if dto.client_id != self.client_id {
                    return actions;
                }
                self.client_position = dto.client_position;
                self.client_order = clone_optional_order(&dto.client_order);
                match dto.client_order {
                    Some(order) => {
                        if order.status == OrderStatus::Cancelled || order.status == OrderStatus::Delivered {
                            actions.push(ClientAction::Stop);
                        }
                    },
                    None => {
                        actions.push(ClientAction::RequestNearbyRestaurants(ClientDTO {
                            client_position: self.client_position,
                            client_id: self.client_id.clone(),
                            client_order: None,
                            time_stamp: now,
                        }));
                    },
                }
                self.already_connected = true;
            },
            _ => {},
        }
        actions
    }

    /// The coordinator has nothing to recover: the client starts afresh and
    /// asks for the restaurants near it.
    pub fn no_recovered_info(&mut self, now: Timestamp) -> (actions: Vec<ClientAction>)
        ensures
            *final(self) == (Client { already_connected: true, ..*old(self) }),
            actions@ == seq![ClientAction::RequestNearbyRestaurants(idle_client(*old(self), now))],
    {
        self.already_connected = true;
        let mut actions: Vec<ClientAction> = Vec::new();
        actions.push(ClientAction::RequestNearbyRestaurants(ClientDTO {
            client_position: self.client_position,
            client_id: self.client_id.clone(),
            client_order: None,
            time_stamp: now,
        }));
        actions
    }

    /// The order the client places, under the id `order_id`.
    pub fn order_request(&self, restaurant_id: String, dish_name: String, order_id: u64, now: Timestamp) -> (order: OrderDTO)
        ensures
            order == requested_order(*self, restaurant_id, dish_name, order_id, now),
    {
        OrderDTO {
            order_id,
            dish_name,
            client_id: self.client_id.clone(),
            restaurant_id,
            delivery_id: None,
            status: OrderStatus::Requested,
            client_position: self.client_position,
            expected_delivery_time: 0,
            time_stamp: now,
        }
    }

    /// Places an order for `dish_name` at `restaurant_id`, under a fresh
    /// random non-zero id.
    pub fn send_this_order(&self, restaurant_id: String, dish_name: String, now: Timestamp) -> (actions: Vec<ClientAction>)
        ensures
            actions@.len() == 1,
            actions@[0] matches ClientAction::RequestThisOrder(order) && order.order_id >= 1
                && order == requested_order(*self, restaurant_id, dish_name, order.order_id, now),
    {
        let order_id = random_in_range(1, u64::MAX);
        let order = self.order_request(restaurant_id, dish_name, order_id, now);
        let mut actions: Vec<ClientAction> = Vec::new();
        actions.push(ClientAction::RequestThisOrder(order));
        actions
    }
}

/// A client's order ends as delivered: once on its way the timer runs, and
/// when the timer fires an order that was not reported delivered is closed
/// as delivered and reported; a session ends on a final status.
pub proof fn lemma_delivering_order_closes(c: Client, order: OrderDTO)
    requires
        order.client_id@ == c.client_id@,
        order.status == OrderStatus::Delivering,
    ensures
        after_order_update(c, order).0.delivery_timer_running,
        after_order_update(c, order).0.client_order == Some(order),
        after_timer(after_order_update(c, order).0).0.client_order == Some(
            OrderDTO { status: OrderStatus::Delivered, ..order },
        ),
        after_timer(after_order_update(c, order).0).1 == seq![
            ClientAction::OrderDelivered(OrderDTO { status: OrderStatus::Delivered, ..order }),
        ],
        !after_timer(after_order_update(c, order).0).0.delivery_timer_running,
{
}

/// A final status stops the client, as its last action, and stops the
/// delivery timer too; a delivered or cancelled order is first reported
/// back as finalized.
pub proof fn lemma_final_status_stops(c: Client, order: OrderDTO)
    requires
        ends_session(order.status),
        order.client_id@ == c.client_id@,
    ensures
        after_order_update(c, order).1.last() == ClientAction::Stop,
        finalizes(order.status) ==> after_order_update(c, order).1[0] == ClientAction::OrderFinalized(order),
        !after_order_update(c, order).0.delivery_timer_running,
{
}

/// Resuming a finished order ends the session: on the first recovery of
/// its own description, a client whose recorded order is cancelled or
/// delivered records that order and stops, as its last action.
pub proof fn lemma_recovered_final_order_stops(c: Client, dto: ClientDTO, order: OrderDTO, now: Timestamp)
    requires
        !c.already_connected,
        dto.client_id@ == c.client_id@,
        dto.client_order == Some(order),
        order.status == OrderStatus::Cancelled || order.status == OrderStatus::Delivered,
    ensures
        after_recover(c, UserDTO::Client(dto), now).0.client_order == Some(order),
        after_recover(c, UserDTO::Client(dto), now).0.already_connected,
        after_recover(c, UserDTO::Client(dto), now).1.len() > 0,
        after_recover(c, UserDTO::Client(dto), now).1.last() == ClientAction::Stop,
{
}

/// Resuming an order still in progress keeps the client running: it records
/// the order and neither stops nor asks for restaurants.
pub proof fn lemma_recovered_open_order_continues(c: Client, dto: ClientDTO, order: OrderDTO, now: Timestamp)
    requires
        !c.already_connected,
        dto.client_id@ == c.client_id@,
        dto.client_order == Some(order),
        order.status != OrderStatus::Cancelled,
        order.status != OrderStatus::Delivered,
    ensures
        after_recover(c, UserDTO::Client(dto), now).0.client_order == Some(order),
        after_recover(c, UserDTO::Client(dto), now).1.len() == 0,
{
}

/// The delivery timer runs only for an order on its way: an update of the
/// client's own order in any other status starts no timer and leaves none
/// running, whether it comes alone or with an order update.
pub proof fn lemma_timer_only_while_delivering(c: Client, order: OrderDTO)
    requires
        order.client_id@ == c.client_id@,
        order.status != OrderStatus::Delivering,
    ensures
        !after_delivery_time(c, order).0.delivery_timer_running,
        forall|i: int| 0 <= i < after_delivery_time(c, order).1.len()
            ==> !(#[trigger] after_delivery_time(c, order).1[i] is StartDeliveryTimer),
        !after_order_update(c, order).0.delivery_timer_running,
        forall|i: int| 0 <= i < after_order_update(c, order).1.len()
            ==> !(#[trigger] after_order_update(c, order).1[i] is StartDeliveryTimer),
{
    let t = after_delivery_time(Client { client_order: Some(order), ..c }, order);
    let u = after_order_update(c, order);
    assert forall|i: int| 0 <= i < u.1.len() implies !(#[trigger] u.1[i] is StartDeliveryTimer) by {
        let f: Seq<ClientAction> = if finalizes(order.status) { seq![ClientAction::OrderFinalized(order)] } else { Seq::empty() };
        let e: Seq<ClientAction> = if ends_session(order.status) { seq![ClientAction::Stop] } else { Seq::empty() };
        assert(u.1 == f + t.1 + e);
        if i < f.len() {
            assert(u.1[i] == f[i]);
        } else if i < f.len() + t.1.len() {
            assert(u.1[i] == t.1[i - f.len()]);
        } else {
            assert(u.1[i] == e[i - f.len() - t.1.len()]);
        }
    }
}

/// An update of the client's own order on its way leaves exactly one timer
/// running: it starts one timer, after cancelling a running one, that waits
/// the expected delivery time plus the base delay, in milliseconds.
pub proof fn lemma_delivering_starts_one_timer(c: Client, order: OrderDTO)
    requires
        order.client_id@ == c.client_id@,
        order.status == OrderStatus::Delivering,
    ensures
        after_delivery_time(c, order).0.delivery_timer_running,
        after_delivery_time(c, order).1.last() matches ClientAction::StartDeliveryTimer { millis }
            && millis >= order.expected_delivery_time
            && (order.expected_delivery_time + BASE_DELAY_MILLIS <= u64::MAX
                ==> millis == order.expected_delivery_time + BASE_DELAY_MILLIS),
        after_delivery_time(c, order).1.len() == (if c.delivery_timer_running { 2int } else { 1int }),
        c.delivery_timer_running ==> after_delivery_time(c, order).1[0] == ClientAction::CancelDeliveryTimer,
{
}

/// An update of another client's order changes nothing.
pub proof fn lemma_other_client_update_ignored(c: Client, order: OrderDTO)
    requires
        order.client_id@ != c.client_id@,
    ensures
        after_delivery_time(c, order) == (c, Seq::<ClientAction>::empty()),
{
}

} // verus!

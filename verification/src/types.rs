//! The entities of the ordering system and their states, as the library
//! holds them. Coordinates and time stamps are carried as plain integers.
use vstd::prelude::*;

verus! {

/// The status of an order.
#[derive(Debug, Clone, Copy, PartialEq, Eq, Structural)]
pub enum OrderStatus {
    /// The order has been requested by a customer.
    Requested,
    /// The order has been authorized by the payment gateway.
    Authorized,
    /// The order has not been authorized by the payment gateway.
    Unauthorized,
    /// The order has been accepted by the restaurant and waits for the kitchen.
    Pending,
    /// The kitchen is preparing the order.
    Preparing,
    /// The order is ready to be delivered.
    ReadyForDelivery,
    /// The order is on its way to the customer.
    Delivering,
    /// The order has been delivered.
    Delivered,
    /// The order has been cancelled.
    Cancelled,
}

/// The text shown to a user for each order status.
pub open spec fn order_status_text(s: OrderStatus) -> Seq<char> {
    match s {
        OrderStatus::Requested => "Requested"@,
        OrderStatus::Unauthorized => "Unauthorized"@,
        OrderStatus::Authorized => "Authorized"@,
        OrderStatus::Pending => "Pending"@,
        OrderStatus::Preparing => "Preparing"@,
        OrderStatus::ReadyForDelivery => "Ready for Delivery"@,
        OrderStatus::Delivering => "Delivering"@,
        OrderStatus::Delivered => "Delivered"@,
        OrderStatus::Cancelled => "Cancelled. Try again later."@,
    }
}

impl OrderStatus {
    /// The text shown to a user for this status.
    pub fn to_display_string(&self) -> (text: String)
        ensures
            text@ == order_status_text(*self),
    {
        match self {
            OrderStatus::Requested => "Requested".to_owned(),
            OrderStatus::Unauthorized => "Unauthorized".to_owned(),
            OrderStatus::Authorized => "Authorized".to_owned(),
            OrderStatus::Pending => "Pending".to_owned(),
            OrderStatus::Preparing => "Preparing".to_owned(),
            OrderStatus::ReadyForDelivery => "Ready for Delivery".to_owned(),
            OrderStatus::Delivering => "Delivering".to_owned(),
            OrderStatus::Delivered => "Delivered".to_owned(),
            OrderStatus::Cancelled => "Cancelled. Try again later.".to_owned(),
        }
    }
}

/// The state of a delivery agent.
#[derive(Debug, Clone, Copy, PartialEq, Eq, Structural)]
pub enum DeliveryStatus {
    /// Reconnecting to a server.
    Reconnecting,
    /// Recovering the state of an order.
    Recovering,
    /// Available to accept orders.
    Available,
    /// Waiting for the restaurant's confirmation after accepting an order.
    WaitingConfirmation,
    /// Delivering an order.
    Delivering,
}

/// The two payment operations.
#[derive(Debug, Clone, Copy, PartialEq, Eq, Structural)]
pub enum PaymentActionType {
    /// Check that an order can be paid.
    Check,
    /// Charge an order.
    Pay,
}

/// A point of the city map. The two coordinates are `f32` values that the
/// library only copies, so it holds their IEEE-754 bit patterns.
#[derive(Debug, Clone, Copy, PartialEq, Eq, Structural)]
pub struct Coordinates {
    pub x_bits: u32,
    pub y_bits: u32,
}

/// A point in time, as whole seconds and nanoseconds since the Unix epoch.
#[derive(Debug, Clone, Copy, PartialEq, Eq, Structural)]
pub struct Timestamp {
    pub secs: u64,
    pub nanos: u32,
}

/// A copy of an optional identifier.
pub fn clone_optional_id(id: &Option<String>) -> (result: Option<String>)
    ensures
        result == *id,
{
    match id {
        Some(s) => Some(s.clone()),
        None => None,
    }
}

/// An order as it travels between the peers.
#[derive(Debug)]
pub struct OrderDTO {
    /// Unique id of the order.
    pub order_id: u64,
    /// Name of the ordered dish.
    pub dish_name: String,
    /// Id of the client who placed the order.
    pub client_id: String,
    /// Id of the restaurant that prepares the order.
    pub restaurant_id: String,
    /// Id of the delivery agent that carries the order, once assigned.
    pub delivery_id: Option<String>,
    /// Status of the order.
    pub status: OrderStatus,
    /// Where the client waits for the order.
    pub client_position: Coordinates,
    /// Expected delivery time, in milliseconds.
    pub expected_delivery_time: u64,
    /// Last update of the order.
    pub time_stamp: Timestamp,
}

impl Clone for OrderDTO {
    fn clone(&self) -> (result: Self)
        ensures
            result == *self,
    {
        OrderDTO {
            order_id: self.order_id,
            dish_name: self.dish_name.clone(),
            client_id: self.client_id.clone(),
            restaurant_id: self.restaurant_id.clone(),
            delivery_id: clone_optional_id(&self.delivery_id),
            status: self.status,
            client_position: self.client_position,
            expected_delivery_time: self.expected_delivery_time,
            time_stamp: self.time_stamp,
        }
    }
}

/// Two orders are the same order when their ids agree.
impl PartialEq for OrderDTO {
    fn eq(&self, other: &Self) -> (same: bool) {
        self.order_id == other.order_id
    }
}

impl Eq for OrderDTO {

}

impl vstd::std_specs::cmp::PartialEqSpecImpl for OrderDTO {
    open spec fn obeys_eq_spec() -> bool {
        true
    }

    open spec fn eq_spec(&self, other: &Self) -> bool {
        self.order_id == other.order_id
    }
}

/// A copy of an optional order.
pub fn clone_optional_order(order: &Option<OrderDTO>) -> (result: Option<OrderDTO>)
    ensures
        result == *order,
{
    match order {
        Some(o) => Some(o.clone()),
        None => None,
    }
}

/// A client as the coordinator records it.
#[derive(Debug)]
pub struct ClientDTO {
    /// Where the client is.
    pub client_position: Coordinates,
    /// Unique id of the client.
    pub client_id: String,
    /// The client's current order, if any.
    pub client_order: Option<OrderDTO>,
    /// Last update of the client.
    pub time_stamp: Timestamp,
}

impl Clone for ClientDTO {
    fn clone(&self) -> (result: Self)
        ensures
            result == *self,
    {
        ClientDTO {
            client_position: self.client_position,
            client_id: self.client_id.clone(),
            client_order: clone_optional_order(&self.client_order),
            time_stamp: self.time_stamp,
        }
    }
}

/// No two orders of `s` share an order id.
pub open spec fn one_order_per_id(s: Seq<OrderDTO>) -> bool {
    forall|a: int, b: int| 0 <= a < b < s.len() ==> #[trigger] s[a].order_id != #[trigger] s[b].order_id
}

/// A restaurant as the coordinator records it. The coordinator keeps each
/// list with [`one_order_per_id`]; the restaurant does not rely on it, as
/// its recovery replays only the first order of each id.
#[derive(Debug)]
pub struct RestaurantDTO {
    /// Where the restaurant is.
    pub restaurant_position: Coordinates,
    /// Unique id of the restaurant.
    pub restaurant_id: String,
    /// Orders authorized by the payment gateway, not yet accepted by the restaurant.
    pub authorized_orders: Vec<OrderDTO>,
    /// Orders accepted and not yet prepared.
    pub pending_orders: Vec<OrderDTO>,
    /// Last update of the restaurant.
    pub time_stamp: Timestamp,
}

/// A delivery agent as the coordinator records it.
#[derive(Debug)]
pub struct DeliveryDTO {
    /// Where the delivery agent is.
    pub delivery_position: Coordinates,
    /// Unique id of the delivery agent.
    pub delivery_id: String,
    /// The client being served, if any.
    pub current_client_id: Option<String>,
    /// The order being delivered, if any.
    pub current_order: Option<OrderDTO>,
    /// State of the delivery agent.
    pub status: DeliveryStatus,
    /// Last update of the delivery agent.
    pub time_stamp: Timestamp,
}

impl Clone for DeliveryDTO {
    fn clone(&self) -> (result: Self)
        ensures
            result == *self,
    {
        DeliveryDTO {
            delivery_position: self.delivery_position,
            delivery_id: self.delivery_id.clone(),
            current_client_id: clone_optional_id(&self.current_client_id),
            current_order: clone_optional_order(&self.current_order),
            status: self.status,
            time_stamp: self.time_stamp,
        }
    }
}

/// What the coordinator recovers about a user that reconnects.
#[derive(Debug)]
pub enum UserDTO {
    /// A client.
    Client(ClientDTO),
    /// A restaurant.
    Restaurant(RestaurantDTO),
    /// A delivery agent.
    Delivery(DeliveryDTO),
}

/// The id and location of a restaurant.
#[derive(Debug)]
pub struct RestaurantInfo {
    pub id: String,
    pub position: Coordinates,
}

impl Clone for RestaurantInfo {
    fn clone(&self) -> (result: Self)
        ensures
            result == *self,
    {
        RestaurantInfo { id: self.id.clone(), position: self.position }
    }
}

} // verus!

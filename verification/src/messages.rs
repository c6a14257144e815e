//! Messages of the protocol whose contents are plain values: those between
//! the coordinators, the storage requests of a coordinator, and the
//! client's interface messages.
use crate::types::DeliveryStatus;
use std::collections::HashMap;
use vstd::prelude::*;

verus! {

/// A message for the client's user interface.
#[derive(Debug, Clone, PartialEq, Eq)]
pub enum UIMessage {
    ShowMessage(String),
    ShowOrderStatus(String),
}

/// A request for the client's id.
#[derive(Debug, Clone, PartialEq, Eq)]
pub struct RequestID;

/// The client's id.
#[derive(Debug, Clone, PartialEq, Eq)]
pub struct SendID {
    pub client_id: String,
}

/// A coordinator asks for the storage updates from `start_index` on.
#[derive(Debug, Clone, PartialEq, Eq)]
pub struct RequestNewStorageUpdates {
    pub coordinator_id: String,
    pub start_index: u64,
}

/// A coordinator asks for the whole storage.
#[derive(Debug, Clone, PartialEq, Eq)]
pub struct RequestAllStorage {
    pub coordinator_id: String,
}

/// The operations that rebuild the storage, and the current operation log.
#[derive(Debug, Clone)]
pub struct RecoverStorageOperations {
    pub storage_recover_msg_list: HashMap<u64, String>,
    pub current_msg_log: HashMap<u64, String>,
}

/// A leader election travelling around the ring of coordinators.
#[derive(Debug, Clone, PartialEq, Eq)]
pub struct LeaderElection {
    pub initiator: String,
    pub candidates: Vec<String>,
}

/// Time to check whether a pong arrived.
#[derive(Debug, Clone, PartialEq, Eq)]
pub struct CheckPongTimeout;

/// Asks the storage for a client.
#[derive(Debug, Clone, PartialEq, Eq)]
pub struct GetClient {
    pub client_id: String,
}

/// Asks the storage for a restaurant.
#[derive(Debug, Clone, PartialEq, Eq)]
pub struct GetRestaurant {
    pub restaurant_id: String,
}

/// Asks the storage for a delivery agent.
#[derive(Debug, Clone, PartialEq, Eq)]
pub struct GetDelivery {
    pub delivery_id: String,
}

/// Asks the storage for an order.
#[derive(Debug, Clone, PartialEq, Eq)]
pub struct GetOrder {
    pub order_id: u64,
}

/// Removes a client from the storage.
#[derive(Debug, Clone, PartialEq, Eq)]
pub struct RemoveClient {
    pub client_id: String,
}

/// Removes a restaurant from the storage.
#[derive(Debug, Clone, PartialEq, Eq)]
pub struct RemoveRestaurant {
    pub restaurant_id: String,
}

/// Removes a delivery agent from the storage.
#[derive(Debug, Clone, PartialEq, Eq)]
pub struct RemoveDelivery {
    pub delivery_id: String,
}

/// Asks the storage for every restaurant.
#[derive(Debug, Clone, PartialEq, Eq)]
pub struct GetRestaurants;

/// Asks the storage for the id and location of every restaurant.
#[derive(Debug, Clone, PartialEq, Eq)]
pub struct GetAllRestaurantsInfo;

/// Records the client a delivery agent serves.
#[derive(Debug, Clone, PartialEq, Eq)]
pub struct SetCurrentClientToDelivery {
    pub delivery_id: String,
    pub client_id: String,
}

/// Records the state of a delivery agent.
#[derive(Debug, Clone, PartialEq, Eq)]
pub struct SetDeliveryStatus {
    pub delivery_id: String,
    pub delivery_status: DeliveryStatus,
}

/// Asks the storage for every delivery agent.
#[derive(Debug, Clone, PartialEq, Eq)]
pub struct GetDeliveries;

/// Asks the storage for every free delivery agent.
#[derive(Debug, Clone, PartialEq, Eq)]
pub struct GetAllAvailableDeliveries;

/// Records the expected delivery time of an order.
#[derive(Debug, Clone, PartialEq, Eq)]
pub struct SetOrderExpectedTime {
    pub order_id: u64,
    pub expected_time: u64,
}

/// Records that a delivery agent accepted an order.
#[derive(Debug, Clone, PartialEq, Eq)]
pub struct InsertAcceptedDelivery {
    pub order_id: u64,
    pub delivery_id: String,
}

/// Forgets the delivery agents that accepted an order.
#[derive(Debug, Clone, PartialEq, Eq)]
pub struct RemoveAcceptedDeliveries {
    pub order_id: u64,
}

} // verus!

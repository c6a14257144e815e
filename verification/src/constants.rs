//! The integer settings of the system.
use vstd::prelude::*;

verus! {

/// Seconds of delay that the simulated journeys start from.
pub const DELAY_SECONDS: u64 = 2;
/// Number of coordinator processes.
pub const NUM_COORDINATORS: u16 = 4;
/// Port of the first coordinator.
pub const BASE_PORT: u16 = 8080;
/// Seconds to wait for a coordinator's answer.
pub const TIMEOUT_SECONDS: u64 = 2;
/// Base delay of every delivery, in milliseconds.
pub const BASE_DELAY_MILLIS: u64 = 1000 * DELAY_SECONDS;
/// Port of the payment gateway.
pub const PAYMENT_GATEWAY_PORT: u16 = BASE_PORT + NUM_COORDINATORS + 1;
/// Number of chefs in each kitchen.
pub const NUMBER_OF_CHEFS: usize = 4;
/// Seconds a chef needs to cook an order.
pub const DEFAULT_TIME_TO_COOK: u64 = 8;

} // verus!

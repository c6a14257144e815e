//! Verified core of the PedidosRust ordering system: the data structures,
//! codecs and the decision logic of the client, restaurant, delivery and
//! payment actors, each stated against a mathematical model.
pub mod bimap;
pub mod bimap_u64_string_serde;
pub mod client;
pub mod delivery;
pub mod chef;
pub mod constants;
pub mod decimal;
pub mod delivery_assigner;
pub mod kitchen;
pub mod messages;
pub mod payment;
pub mod peer_types;
pub mod random;
pub mod restaurant;
pub mod tcp_sender;
pub mod types;
pub mod ui_input;

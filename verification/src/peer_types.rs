use vstd::prelude::*;

verus! {

/// The type of a peer in the distributed system, announced as the first
/// byte of every TCP connection.
#[derive(Debug, Clone, Copy, PartialEq, Eq, Structural)]
pub enum PeerType {
    /// A client peer.
    ClientType,
    /// A restaurant peer.
    RestaurantType,
    /// A delivery agent peer.
    DeliveryType,
    /// A coordinator peer.
    CoordinatorType,
    /// A payment gateway peer.
    GatewayType,
}

/// The byte that stands for each peer type on the wire.
pub open spec fn peer_type_code(p: PeerType) -> u8 {
    match p {
        PeerType::ClientType => 0,
        PeerType::RestaurantType => 1,
        PeerType::DeliveryType => 2,
        PeerType::CoordinatorType => 3,
        PeerType::GatewayType => 4,
    }
}

/// The peer type that a byte stands for, if any.
pub open spec fn peer_type_of(byte: u8) -> Option<PeerType> {
    match byte {
        0 => Some(PeerType::ClientType),
        1 => Some(PeerType::RestaurantType),
        2 => Some(PeerType::DeliveryType),
        3 => Some(PeerType::CoordinatorType),
        4 => Some(PeerType::GatewayType),
        _ => None,
    }
}

impl PeerType {
    /// Converts a byte to the peer type it encodes, `None` for an unknown byte.
    pub fn from_u8(byte: u8) -> (result: Option<PeerType>)
        ensures
            result == peer_type_of(byte),
    {
        match byte {
            0 => Some(PeerType::ClientType),
            1 => Some(PeerType::RestaurantType),
            2 => Some(PeerType::DeliveryType),
            3 => Some(PeerType::CoordinatorType),
            4 => Some(PeerType::GatewayType),
            _ => None,
        }
    }

    /// Converts a peer type to the byte that encodes it.
    pub fn to_u8(&self) -> (byte: u8)
        ensures
            byte == peer_type_code(*self),
            byte <= 4,
    {
        match self {
            PeerType::ClientType => 0,
            PeerType::RestaurantType => 1,
            PeerType::DeliveryType => 2,
            PeerType::CoordinatorType => 3,
            PeerType::GatewayType => 4,
        }
    }
}

/// The byte sent for a peer type decodes to that peer type, and a byte
/// that decodes to a peer type is the byte sent for it: the encoding is a
/// bijection between the five peer types and the bytes 0 to 4.
pub proof fn lemma_peer_type_round_trip(p: PeerType, byte: u8)
    ensures
        peer_type_of(peer_type_code(p)) == Some(p),
        peer_type_of(byte) matches Some(q) ==> peer_type_code(q) == byte,
        peer_type_of(byte) is Some <==> byte <= 4,
{
}

} // verus!

use pedidos_rust::payment::PaymentGateway;
use pedidos_rust::types::{Coordinates, OrderDTO, OrderStatus, Timestamp};

fn order(id: u64) -> OrderDTO {
    OrderDTO {
        order_id: id,
        dish_name: "Taco".to_string(),
        client_id: "ana".to_string(),
        restaurant_id: "rest".to_string(),
        delivery_id: None,
        status: OrderStatus::Requested,
        client_position: Coordinates { x_bits: 0, y_bits: 0 },
        expected_delivery_time: 0,
        time_stamp: Timestamp { secs: 0, nanos: 0 },
    }
}

#[test]
fn authorized_order_can_be_billed() {
    let mut g = PaymentGateway::new();
    let r = g.request_authorization(order(1), true);
    assert_eq!(r.status, OrderStatus::Authorized);
    assert_eq!(r.order_id, 1);
    assert_eq!(g.bill_payment(order(1)).map(|o| o.order_id), Some(1));
}

#[test]
fn rejected_order_cannot_be_billed() {
    let mut g = PaymentGateway::new();
    let r = g.request_authorization(order(2), false);
    assert_eq!(r.status, OrderStatus::Unauthorized);
    assert!(g.bill_payment(order(2)).is_none());
    assert!(g.authorized_orders.is_empty());
}

#[test]
fn unknown_order_cannot_be_billed() {
    let mut g = PaymentGateway::new();
    g.request_authorization(order(1), true);
    assert!(g.bill_payment(order(3)).is_none());
}

use pedidos_rust::types::{Coordinates, OrderDTO, OrderStatus, Timestamp};

fn order(id: u64) -> OrderDTO {
    OrderDTO {
        order_id: id,
        dish_name: "Pizza".to_string(),
        client_id: "ana".to_string(),
        restaurant_id: "rest".to_string(),
        delivery_id: None,
        status: OrderStatus::Requested,
        client_position: Coordinates { x_bits: 1.0f32.to_bits(), y_bits: 2.0f32.to_bits() },
        expected_delivery_time: 0,
        time_stamp: Timestamp { secs: 10, nanos: 0 },
    }
}

#[test]
fn order_status_display_texts() {
    assert_eq!(OrderStatus::Requested.to_display_string(), "Requested");
    assert_eq!(OrderStatus::Authorized.to_display_string(), "Authorized");
    assert_eq!(OrderStatus::Unauthorized.to_display_string(), "Unauthorized");
    assert_eq!(OrderStatus::Pending.to_display_string(), "Pending");
    assert_eq!(OrderStatus::Preparing.to_display_string(), "Preparing");
    assert_eq!(OrderStatus::ReadyForDelivery.to_display_string(), "Ready for Delivery");
    assert_eq!(OrderStatus::Delivering.to_display_string(), "Delivering");
    assert_eq!(OrderStatus::Delivered.to_display_string(), "Delivered");
    assert_eq!(OrderStatus::Cancelled.to_display_string(), "Cancelled. Try again later.");
}

#[test]
fn orders_are_equal_by_id_only() {
    let a = order(7);
    let mut b = order(7);
    b.dish_name = "Soup".to_string();
    b.status = OrderStatus::Delivered;
    assert_eq!(a, b);
    assert_ne!(a, order(8));
}

#[test]
fn order_clone_keeps_every_field() {
    let mut a = order(3);
    a.delivery_id = Some("bob".to_string());
    let b = a.clone();
    assert_eq!(b.order_id, 3);
    assert_eq!(b.dish_name, "Pizza");
    assert_eq!(b.delivery_id, Some("bob".to_string()));
    assert_eq!(b.client_position, a.client_position);
    assert_eq!(b.time_stamp, a.time_stamp);
}

use pedidos_rust::delivery_assigner::{AssignerAction, DeliveryAssigner};
use pedidos_rust::types::{Coordinates, OrderDTO, OrderStatus, RestaurantInfo, Timestamp};

fn order(id: u64) -> OrderDTO {
    OrderDTO {
        order_id: id,
        dish_name: "Pasta".to_string(),
        client_id: "ana".to_string(),
        restaurant_id: "rest".to_string(),
        delivery_id: None,
        status: OrderStatus::Preparing,
        client_position: Coordinates { x_bits: 0, y_bits: 0 },
        expected_delivery_time: 0,
        time_stamp: Timestamp { secs: 0, nanos: 0 },
    }
}

fn assigner() -> DeliveryAssigner {
    DeliveryAssigner::new(RestaurantInfo {
        id: "rest".to_string(),
        position: Coordinates { x_bits: 3.0f32.to_bits(), y_bits: 4.0f32.to_bits() },
    })
}

#[test]
fn ready_order_is_reported_and_needs_a_delivery() {
    let mut a = assigner();
    let actions = a.order_ready(order(1));
    assert_eq!(a.ready_orders[&1].status, OrderStatus::ReadyForDelivery);
    assert!(matches!(&actions[0], AssignerAction::UpdateOrderStatus(o) if o.status == OrderStatus::ReadyForDelivery));
    assert!(matches!(&actions[1], AssignerAction::RequestNearbyDelivery { order, restaurant_info }
        if order.order_id == 1 && restaurant_info.id == "rest"));
}

#[test]
fn available_delivery_takes_ready_order() {
    let mut a = assigner();
    a.order_ready(order(1));
    let actions = a.delivery_available(1, "bob".to_string());
    assert_eq!(actions.len(), 1);
    match &actions[0] {
        AssignerAction::DeliverThisOrder { order, restaurant_info } => {
            assert_eq!(order.order_id, 1);
            assert_eq!(order.status, OrderStatus::Delivering);
            assert_eq!(order.delivery_id, Some("bob".to_string()));
            assert_eq!(restaurant_info.id, "rest");
        }
        other => panic!("unexpected {:?}", other),
    }
    assert_eq!(a.orders_delivery[&1], "bob");
}

#[test]
fn unknown_order_gets_no_delivery() {
    let mut a = assigner();
    assert!(a.delivery_available(9, "bob".to_string()).is_empty());
    assert!(a.orders_delivery.is_empty());
}

#[test]
fn cancelled_order_is_not_dispatched() {
    let mut a = assigner();
    a.order_ready(order(1));
    a.cancel_order(1);
    assert!(a.delivery_available(1, "bob".to_string()).is_empty());
}

use pedidos_rust::restaurant::{merge_recovered_orders, Restaurant, RestaurantAction};
use pedidos_rust::types::{Coordinates, OrderDTO, OrderStatus, RestaurantDTO, RestaurantInfo, Timestamp, UserDTO};

fn order(id: u64, status: OrderStatus) -> OrderDTO {
    OrderDTO {
        order_id: id,
        dish_name: "Ramen".to_string(),
        client_id: "ana".to_string(),
        restaurant_id: "rest".to_string(),
        delivery_id: None,
        status,
        client_position: Coordinates { x_bits: 0, y_bits: 0 },
        expected_delivery_time: 0,
        time_stamp: Timestamp { secs: 0, nanos: 0 },
    }
}

fn restaurant() -> Restaurant {
    Restaurant::new(RestaurantInfo { id: "rest".to_string(), position: Coordinates { x_bits: 1, y_bits: 2 } })
}

#[test]
fn pending_order_goes_to_kitchen() {
    let actions = restaurant().new_order(order(1, OrderStatus::Pending), false);
    assert!(matches!(&actions[..], [RestaurantAction::SendToKitchen(o)] if o.order_id == 1 && o.status == OrderStatus::Pending));
}

#[test]
fn accepted_authorized_order_becomes_pending() {
    let actions = restaurant().new_order(order(2, OrderStatus::Authorized), true);
    match &actions[..] {
        [RestaurantAction::SendToKitchen(a), RestaurantAction::UpdateOrderStatus(b)] => {
            assert_eq!(a.status, OrderStatus::Pending);
            assert_eq!(b.status, OrderStatus::Pending);
            assert_eq!(b.order_id, 2);
        }
        other => panic!("unexpected {:?}", other),
    }
}

#[test]
fn rejected_authorized_order_is_cancelled() {
    let actions = restaurant().new_order(order(3, OrderStatus::Authorized), false);
    assert!(matches!(&actions[..], [RestaurantAction::CancelOrder(o)] if o.order_id == 3 && o.status == OrderStatus::Cancelled));
}

#[test]
fn order_in_other_state_is_ignored() {
    assert!(restaurant().new_order(order(4, OrderStatus::Delivered), true).is_empty());
}

#[test]
fn merge_keeps_one_order_per_id_pending_first() {
    let pending = vec![order(1, OrderStatus::Pending), order(2, OrderStatus::Pending)];
    let authorized = vec![order(2, OrderStatus::Authorized), order(3, OrderStatus::Authorized)];
    let merged = merge_recovered_orders(pending, authorized);
    let ids: Vec<(u64, OrderStatus)> = merged.iter().map(|o| (o.order_id, o.status)).collect();
    assert_eq!(ids, vec![(1, OrderStatus::Pending), (2, OrderStatus::Pending), (3, OrderStatus::Authorized)]);
}

#[test]
fn recovery_replays_orders_and_position() {
    let mut r = restaurant();
    let dto = RestaurantDTO {
        restaurant_position: Coordinates { x_bits: 9, y_bits: 9 },
        restaurant_id: "rest".to_string(),
        authorized_orders: vec![order(5, OrderStatus::Authorized)],
        pending_orders: vec![order(6, OrderStatus::Pending)],
        time_stamp: Timestamp { secs: 0, nanos: 0 },
    };
    let user = UserDTO::Restaurant(dto);
    assert!(r.owns_recovered_info(&user));
    let actions = r.recover(user);
    assert_eq!(r.info.position, Coordinates { x_bits: 9, y_bits: 9 });
    let ids: Vec<u64> = actions
        .iter()
        .map(|a| match a {
            RestaurantAction::NewOrder(o) => o.order_id,
            other => panic!("unexpected {:?}", other),
        })
        .collect();
    assert_eq!(ids, vec![6, 5]);
}

#[test]
fn recovery_of_another_restaurant_is_ignored() {
    let mut r = restaurant();
    let dto = RestaurantDTO {
        restaurant_position: Coordinates { x_bits: 9, y_bits: 9 },
        restaurant_id: "other".to_string(),
        authorized_orders: vec![order(5, OrderStatus::Authorized)],
        pending_orders: vec![],
        time_stamp: Timestamp { secs: 0, nanos: 0 },
    };
    let user = UserDTO::Restaurant(dto);
    assert!(!r.owns_recovered_info(&user));
    assert!(r.recover(user).is_empty());
    assert_eq!(r.info.position, Coordinates { x_bits: 1, y_bits: 2 });
}

use pedidos_rust::delivery::{Delivery, DeliveryAction};
use pedidos_rust::types::{Coordinates, DeliveryDTO, DeliveryStatus, OrderDTO, OrderStatus, Timestamp, UserDTO};

const NOW: Timestamp = Timestamp { secs: 100, nanos: 5 };

fn at(x: f32, y: f32) -> Coordinates {
    Coordinates { x_bits: x.to_bits(), y_bits: y.to_bits() }
}

fn order(id: u64) -> OrderDTO {
    OrderDTO {
        order_id: id,
        dish_name: "Pizza".to_string(),
        client_id: "ana".to_string(),
        restaurant_id: "rest".to_string(),
        delivery_id: Some("bob".to_string()),
        status: OrderStatus::Delivering,
        client_position: at(7.0, 8.0),
        expected_delivery_time: 0,
        time_stamp: Timestamp { secs: 1, nanos: 0 },
    }
}

fn agent() -> Delivery {
    Delivery::new("bob".to_string(), at(1.0, 1.0))
}

#[test]
fn free_agent_takes_accepted_offer() {
    let mut d = agent();
    let actions = d.new_offer(order(1), true, NOW);
    assert_eq!(d.status, DeliveryStatus::WaitingConfirmation);
    assert_eq!(d.current_order.as_ref().map(|o| o.order_id), Some(1));
    match &actions[..] {
        [DeliveryAction::AcceptedOrder { order, delivery_info }] => {
            assert_eq!(order.order_id, 1);
            assert_eq!(delivery_info.delivery_id, "bob");
            assert_eq!(delivery_info.status, DeliveryStatus::WaitingConfirmation);
            assert_eq!(delivery_info.current_client_id, Some("ana".to_string()));
            assert_eq!(delivery_info.delivery_position, at(1.0, 1.0));
            assert_eq!(delivery_info.time_stamp, NOW);
        }
        other => panic!("unexpected {:?}", other),
    }
}

#[test]
fn free_agent_declining_offer_stays_free() {
    let mut d = agent();
    assert!(d.new_offer(order(1), false, NOW).is_empty());
    assert_eq!(d.status, DeliveryStatus::Available);
    assert!(d.current_order.is_none());
}

#[test]
fn waiting_agent_ignores_new_offers() {
    let mut d = agent();
    d.new_offer(order(1), true, NOW);
    assert!(d.new_offer(order(2), true, NOW).is_empty());
    assert_eq!(d.current_order.as_ref().map(|o| o.order_id), Some(1));
}

#[test]
fn waiting_agent_freed_when_not_needed() {
    let mut d = agent();
    d.new_offer(order(1), true, NOW);
    d.delivery_no_needed(2);
    assert_eq!(d.status, DeliveryStatus::WaitingConfirmation);
    d.delivery_no_needed(1);
    assert_eq!(d.status, DeliveryStatus::Available);
    assert!(d.current_order.is_none());
}

#[test]
fn confirmed_agent_sets_off_and_reports_time() {
    let mut d = agent();
    d.new_offer(order(1), true, NOW);
    let actions = d.deliver_this_order(order(1), 17_000);
    assert_eq!(d.status, DeliveryStatus::Delivering);
    assert_eq!(d.position, at(7.0, 8.0));
    match &actions[..] {
        [DeliveryAction::UpdateOrderStatus(o), DeliveryAction::ScheduleOrderDelivered { order, delay_ms }] => {
            assert_eq!(o.expected_delivery_time, 17_000);
            assert_eq!(order.expected_delivery_time, 0);
            assert_eq!(*delay_ms, 17_000);
        }
        other => panic!("unexpected {:?}", other),
    }
}

#[test]
fn confirmation_of_another_order_is_ignored() {
    let mut d = agent();
    d.new_offer(order(1), true, NOW);
    assert!(d.deliver_this_order(order(9), 5).is_empty());
    assert_eq!(d.status, DeliveryStatus::WaitingConfirmation);
    assert_eq!(d.position, at(1.0, 1.0));
}

#[test]
fn journey_end_reports_delivery_and_frees_agent() {
    let mut d = agent();
    d.new_offer(order(1), true, NOW);
    d.deliver_this_order(order(1), 10);
    let actions = d.order_delivered(order(1), NOW);
    assert_eq!(d.status, DeliveryStatus::Available);
    assert!(d.current_order.is_none());
    match &actions[..] {
        [DeliveryAction::OrderDelivered(o), DeliveryAction::IAmAvailable { delivery_info }] => {
            assert_eq!(o.status, OrderStatus::Delivered);
            assert_eq!(delivery_info.status, DeliveryStatus::Available);
            assert_eq!(delivery_info.delivery_position, at(7.0, 8.0));
            assert!(delivery_info.current_order.is_none());
        }
        other => panic!("unexpected {:?}", other),
    }
}

fn recovered(status: DeliveryStatus, current: Option<OrderDTO>) -> UserDTO {
    UserDTO::Delivery(DeliveryDTO {
        delivery_position: at(4.0, 4.0),
        delivery_id: "bob".to_string(),
        current_client_id: None,
        current_order: current,
        status,
        time_stamp: NOW,
    })
}

#[test]
fn recovery_resumes_a_delivery() {
    let mut d = agent();
    let actions = d.recover(recovered(DeliveryStatus::Delivering, Some(order(3))), 9_000);
    assert!(d.already_connected);
    assert_eq!(d.status, DeliveryStatus::Delivering);
    assert_eq!(d.position, at(7.0, 8.0));
    match &actions[..] {
        [DeliveryAction::UpdateOrderStatus(o), DeliveryAction::ScheduleOrderDelivered { order, delay_ms }] => {
            assert_eq!(o.expected_delivery_time, 9_000);
            assert_eq!(order.expected_delivery_time, 9_000);
            assert_eq!(*delay_ms, 9_000);
        }
        other => panic!("unexpected {:?}", other),
    }
    // a second recovery on the same connection changes nothing
    assert!(d.recover(recovered(DeliveryStatus::Available, None), 1).is_empty());
    assert_eq!(d.status, DeliveryStatus::Delivering);
}

#[test]
fn recovery_repeats_acceptance_while_waiting() {
    let mut d = agent();
    let actions = d.recover(recovered(DeliveryStatus::WaitingConfirmation, Some(order(4))), 0);
    assert_eq!(d.status, DeliveryStatus::WaitingConfirmation);
    assert_eq!(d.position, at(4.0, 4.0));
    assert!(matches!(&actions[..], [DeliveryAction::AcceptedOrder { order, .. }] if order.order_id == 4));
}

#[test]
fn recovery_without_order_frees_agent() {
    let mut d = agent();
    let actions = d.recover(recovered(DeliveryStatus::Delivering, None), 0);
    assert_eq!(d.status, DeliveryStatus::Available);
    assert!(matches!(&actions[..], [DeliveryAction::IAmAvailable { .. }]));
}

#[test]
fn recovery_of_another_kind_of_user_is_ignored() {
    let mut d = agent();
    let other = UserDTO::Restaurant(pedidos_rust::types::RestaurantDTO {
        restaurant_position: at(0.0, 0.0),
        restaurant_id: "bob".to_string(),
        authorized_orders: vec![],
        pending_orders: vec![],
        time_stamp: NOW,
    });
    assert!(!d.owns_recovered_info(&other));
    assert!(d.recover(other, 0).is_empty());
    assert!(!d.already_connected);
    assert!(d.owns_recovered_info(&recovered(DeliveryStatus::Available, None)));
}

#[test]
fn no_recovered_info_announces_availability() {
    let mut d = agent();
    let now = Timestamp { secs: 9, nanos: 1 };
    let actions = d.no_recovered_info(now);
    assert!(d.already_connected);
    assert_eq!(d.status, DeliveryStatus::Available);
    assert!(d.current_order.is_none());
    match &actions[..] {
        [DeliveryAction::IAmAvailable { delivery_info }] => {
            assert_eq!(delivery_info.delivery_id, d.delivery_id);
            assert_eq!(delivery_info.delivery_position, d.position);
            assert_eq!(delivery_info.status, DeliveryStatus::Available);
            assert!(delivery_info.current_order.is_none());
            assert_eq!(delivery_info.time_stamp, now);
        }
        other => panic!("unexpected {:?}", other),
    }
    assert!(d.recover(recovered(DeliveryStatus::Delivering, Some(order(1))), 0).is_empty());
}

use pedidos_rust::client::{Client, ClientAction};
use pedidos_rust::types::{ClientDTO, Coordinates, OrderDTO, OrderStatus, Timestamp, UserDTO};

const NOW: Timestamp = Timestamp { secs: 50, nanos: 0 };

fn client() -> Client {
    Client::new("ana".to_string(), Coordinates { x_bits: 3, y_bits: 4 })
}

fn order(id: u64, status: OrderStatus, expected_ms: u64) -> OrderDTO {
    OrderDTO {
        order_id: id,
        dish_name: "Empanada".to_string(),
        client_id: "ana".to_string(),
        restaurant_id: "rest".to_string(),
        delivery_id: None,
        status,
        client_position: Coordinates { x_bits: 3, y_bits: 4 },
        expected_delivery_time: expected_ms,
        time_stamp: Timestamp { secs: 0, nanos: 0 },
    }
}

#[test]
fn delivering_update_starts_the_timer() {
    let mut c = client();
    let actions = c.notify_order_updated(order(1, OrderStatus::Delivering, 12_500));
    assert!(c.delivery_timer_running);
    assert!(matches!(&actions[..], [ClientAction::StartDeliveryTimer { millis: 14_500 }]));
    let again = c.notify_order_updated(order(1, OrderStatus::Delivering, 3_000));
    assert!(matches!(&again[..], [ClientAction::CancelDeliveryTimer, ClientAction::StartDeliveryTimer { millis: 5_000 }]));
}

#[test]
fn other_update_stops_a_running_timer() {
    let mut c = client();
    c.notify_order_updated(order(1, OrderStatus::Delivering, 1_000));
    let actions = c.notify_order_updated(order(1, OrderStatus::Preparing, 0));
    assert!(!c.delivery_timer_running);
    assert!(matches!(&actions[..], [ClientAction::CancelDeliveryTimer]));
}

#[test]
fn final_status_stops_the_client() {
    for status in [OrderStatus::Delivered, OrderStatus::Cancelled] {
        let mut c = client();
        let actions = c.notify_order_updated(order(1, status, 0));
        assert!(matches!(&actions[..], [ClientAction::OrderFinalized(o), ClientAction::Stop] if o.order_id == 1 && o.status == status));
        assert_eq!(c.client_order.as_ref().map(|o| o.status), Some(status));
    }
    let mut c = client();
    let actions = c.notify_order_updated(order(1, OrderStatus::Unauthorized, 0));
    assert!(matches!(&actions[..], [ClientAction::Stop]));
}

#[test]
fn delivered_update_cancels_running_timer_before_stopping() {
    let mut c = client();
    c.notify_order_updated(order(1, OrderStatus::Delivering, 0));
    let actions = c.notify_order_updated(order(1, OrderStatus::Delivered, 0));
    assert!(matches!(
        &actions[..],
        [ClientAction::OrderFinalized(_), ClientAction::CancelDeliveryTimer, ClientAction::Stop]
    ));
    assert!(!c.delivery_timer_running);
}

#[test]
fn timer_wait_is_capped_at_the_largest_u64() {
    let mut c = client();
    let actions = c.notify_order_updated(order(1, OrderStatus::Delivering, u64::MAX - 5));
    assert!(matches!(&actions[..], [ClientAction::StartDeliveryTimer { millis: u64::MAX }]));
}

#[test]
fn update_of_another_client_leaves_timer_alone() {
    let mut c = client();
    let mut o = order(1, OrderStatus::Delivering, 1_000);
    o.client_id = "zoe".to_string();
    let actions = c.manage_delivery_time(&o);
    assert!(actions.is_empty());
    assert!(!c.delivery_timer_running);
}

#[test]
fn timer_closes_an_undelivered_order() {
    let mut c = client();
    c.notify_order_updated(order(1, OrderStatus::Delivering, 1_000));
    let actions = c.delivery_timer_elapsed();
    assert!(!c.delivery_timer_running);
    assert_eq!(c.client_order.as_ref().map(|o| o.status), Some(OrderStatus::Delivered));
    assert!(matches!(&actions[..], [ClientAction::OrderDelivered(o)] if o.status == OrderStatus::Delivered && o.order_id == 1));
    assert!(c.delivery_timer_elapsed().is_empty());
}

#[test]
fn cancel_of_own_order_stops_the_client() {
    let mut c = client();
    c.notify_order_updated(order(1, OrderStatus::Pending, 0));
    assert!(c.cancel_order(2).is_empty());
    assert!(c.client_order.is_some());
    assert!(matches!(&c.cancel_order(1)[..], [ClientAction::Stop]));
    assert!(c.client_order.is_none());
    let mut fresh = client();
    assert!(matches!(&fresh.cancel_order(1)[..], [ClientAction::Stop]));
}

#[test]
fn connection_loss_cancels_timer() {
    let mut c = client();
    assert!(c.connection_closed().is_empty());
    c.notify_order_updated(order(1, OrderStatus::Delivering, 0));
    assert!(matches!(&c.connection_closed()[..], [ClientAction::CancelDeliveryTimer]));
    assert!(!c.delivery_timer_running);
}

fn recovered(client_order: Option<OrderDTO>) -> UserDTO {
    UserDTO::Client(ClientDTO {
        client_position: Coordinates { x_bits: 8, y_bits: 8 },
        client_id: "ana".to_string(),
        client_order,
        time_stamp: NOW,
    })
}

#[test]
fn recovery_without_order_asks_for_restaurants() {
    let mut c = client();
    let actions = c.recover(recovered(None), NOW);
    assert!(c.already_connected);
    assert_eq!(c.client_position, Coordinates { x_bits: 8, y_bits: 8 });
    match &actions[..] {
        [ClientAction::RequestNearbyRestaurants(dto)] => {
            assert_eq!(dto.client_id, "ana");
            assert_eq!(dto.client_position, Coordinates { x_bits: 8, y_bits: 8 });
            assert!(dto.client_order.is_none());
            assert_eq!(dto.time_stamp, NOW);
        }
        other => panic!("unexpected {:?}", other),
    }
}

#[test]
fn recovery_of_finished_order_stops_the_client() {
    let mut c = client();
    let actions = c.recover(recovered(Some(order(1, OrderStatus::Delivered, 0))), NOW);
    assert!(matches!(&actions[..], [ClientAction::Stop]));
    let mut d = client();
    assert!(d.recover(recovered(Some(order(1, OrderStatus::Preparing, 0))), NOW).is_empty());
    assert_eq!(d.client_order.as_ref().map(|o| o.order_id), Some(1));
    assert!(d.recover(recovered(None), NOW).is_empty());
}

#[test]
fn no_recovered_info_asks_for_restaurants() {
    let mut c = client();
    let actions = c.no_recovered_info(NOW);
    assert!(c.already_connected);
    assert!(matches!(&actions[..], [ClientAction::RequestNearbyRestaurants(dto)] if dto.client_id == "ana"));
}

#[test]
fn placed_order_is_requested_with_fresh_id() {
    let c = client();
    let first = c.send_this_order("rest".to_string(), "Soup".to_string(), NOW);
    let second = c.send_this_order("rest".to_string(), "Soup".to_string(), NOW);
    let id = |a: &[ClientAction]| match a {
        [ClientAction::RequestThisOrder(o)] => {
            assert_eq!(o.status, OrderStatus::Requested);
            assert_eq!(o.dish_name, "Soup");
            assert_eq!(o.restaurant_id, "rest");
            assert_eq!(o.client_id, "ana");
            assert_eq!(o.expected_delivery_time, 0);
            assert!(o.delivery_id.is_none());
            assert!(o.order_id >= 1);
            o.order_id
        }
        other => panic!("unexpected {:?}", other),
    };
    assert_ne!(id(&first), id(&second));
}

#[test]
fn order_request_uses_given_id() {
    let o = client().order_request("r".to_string(), "d".to_string(), 77, NOW);
    assert_eq!(o.order_id, 77);
    assert_eq!(o.status, OrderStatus::Requested);
    assert_eq!(o.time_stamp, NOW);
    assert_eq!(o.client_position, Coordinates { x_bits: 3, y_bits: 4 });
}

//! The decisions of a restaurant: which orders reach the kitchen, and how
//! the orders kept by the coordinator are replayed after a reconnection.
use crate::types::{one_order_per_id, OrderDTO, OrderStatus, RestaurantDTO, RestaurantInfo, UserDTO};
use std::collections::HashSet;
use vstd::prelude::*;

verus! {

broadcast use vstd::std_specs::hash::group_hash_axioms;

/// What a restaurant asks its runtime to do.
#[derive(Debug)]
pub enum RestaurantAction {
    /// Queue the order in the kitchen.
    SendToKitchen(OrderDTO),
    /// Report the order's new status to the coordinator.
    UpdateOrderStatus(OrderDTO),
    /// Ask the coordinator to cancel the order, which the restaurant refused.
    CancelOrder(OrderDTO),
    /// Handle the order again as a new order.
    NewOrder(OrderDTO),
}

/// The state of a restaurant.
#[derive(Debug)]
pub struct Restaurant {
    /// The restaurant's id and location.
    pub info: RestaurantInfo,
}

/// What a restaurant does with a new order: a pending order goes to the
/// kitchen; an authorized order is accepted (and becomes pending) or
/// rejected (and becomes cancelled) by the restaurant's random choice
/// `accept`. An accepted order is reported to the coordinator as pending,
/// a rejected one is sent back for cancellation; any other order is ignored.
pub open spec fn new_order_actions(order: OrderDTO, accept: bool) -> Seq<RestaurantAction> {
    match order.status {
        OrderStatus::Pending => seq![RestaurantAction::SendToKitchen(order)],
        OrderStatus::Authorized => if accept {
            seq![
                RestaurantAction::SendToKitchen(OrderDTO { status: OrderStatus::Pending, ..order }),
                RestaurantAction::UpdateOrderStatus(OrderDTO { status: OrderStatus::Pending, ..order }),
            ]
        } else {
            seq![RestaurantAction::CancelOrder(OrderDTO { status: OrderStatus::Cancelled, ..order })]
        },
        _ => Seq::empty(),
    }
}

/// Whether an order with the id of `s[i]` occurs in `s` before position `i`.
pub open spec fn id_seen_before(s: Seq<OrderDTO>, i: int) -> bool {
    exists|j: int| 0 <= j < i && #[trigger] s[j].order_id == s[i].order_id
}

/// The orders of `s`, keeping only the first order of each id.
pub open spec fn first_of_each_id(s: Seq<OrderDTO>) -> Seq<OrderDTO>
    decreases s.len(),
{
    if s.len() == 0 {
        Seq::empty()
    } else if id_seen_before(s, s.len() - 1) {
        first_of_each_id(s.drop_last())
    } else {
        first_of_each_id(s.drop_last()).push(s.last())
    }
}

/// The restaurant after a recovery message, and what it does: with its
/// own description, it takes the recorded location and handles each of its
/// pending and authorized orders again, once per order id.
pub open spec fn after_recover(r: Restaurant, user_info: UserDTO) -> (Restaurant, Seq<RestaurantAction>) {
    match user_info {
        UserDTO::Restaurant(dto) => if dto.restaurant_id@ == r.info.id@ {
            (
                Restaurant { info: RestaurantInfo { position: dto.restaurant_position, ..r.info } },
                first_of_each_id(dto.pending_orders@ + dto.authorized_orders@).map_values(
                    |o: OrderDTO| RestaurantAction::NewOrder(o),
                ),
            )
        } else {
            (r, Seq::empty())
        },
        _ => (r, Seq::empty()),
    }
}

/// Joins the pending and the authorized orders of a recovered restaurant,
/// one order per id, a pending order taking precedence.
pub fn merge_recovered_orders(pending: Vec<OrderDTO>, authorized: Vec<OrderDTO>) -> (orders: Vec<OrderDTO>)
    ensures
        orders@ == first_of_each_id(pending@ + authorized@),
{
    let ghost all = pending@ + authorized@;
    let mut all_orders: Vec<OrderDTO> = pending;
    let mut rest = authorized;
    all_orders.append(&mut rest);
    let mut seen: HashSet<u64> = HashSet::new();
    let mut orders: Vec<OrderDTO> = Vec::new();
    let mut i: usize = 0;
    while i < all_orders.len()
        invariant
            all_orders@ == all,
            i <= all.len(),
            orders@ == first_of_each_id(all.take(i as int)),
            forall|id: u64| #[trigger] seen@.contains(id) <==> exists|j: int| 0 <= j < i && all[j].order_id == id,
        decreases all.len() - i,
    {
        let order = all_orders[i].clone();
        let ghost prefix = all.take(i + 1);
        proof {
            assert(prefix.drop_last() =~= all.take(i as int));
            assert(prefix.last() == all[i as int]);
            assert(id_seen_before(prefix, i as int) <==> seen@.contains(order.order_id)) by {
                if seen@.contains(order.order_id) {
                    let j = choose|j: int| 0 <= j < i && all[j].order_id == order.order_id;
                    assert(prefix[j].order_id == prefix[i as int].order_id);
                }
                if id_seen_before(prefix, i as int) {
                    let j = choose|j: int| 0 <= j < i && #[trigger] prefix[j].order_id == prefix[i as int].order_id;
                    assert(all[j].order_id == order.order_id);
                }
            }
        }
        if !seen.contains(&order.order_id) {
            seen.insert(order.order_id);
            orders.push(order);
        }
        i = i + 1;
        proof {
            assert forall|id: u64| #[trigger] seen@.contains(id) <==> exists|j: int| 0 <= j < i && all[j].order_id == id by {
                if exists|j: int| 0 <= j < i && all[j].order_id == id {
                    let j = choose|j: int| 0 <= j < i && all[j].order_id == id;
                    if j < i - 1 {
                        assert(exists|j: int| 0 <= j < i - 1 && all[j].order_id == id);
                    }
                }
            }
        }
    }
    proof {
        assert(all.take(all.len() as int) =~= all);
    }
    orders
}

impl Restaurant {
    /// A restaurant with the given id and location.
    pub fn new(info: RestaurantInfo) -> (r: Restaurant)
        ensures
            r.info == info,
    {
        Restaurant { info }
    }

    /// Handles a new order from the coordinator.
    pub fn new_order(&self, order: OrderDTO, accept: bool) -> (actions: Vec<RestaurantAction>)
        ensures
            actions@ == new_order_actions(order, accept),
    {
        let mut actions: Vec<RestaurantAction> = Vec::new();
        let mut order = order;
        match order.status {
            OrderStatus::Pending => {
                actions.push(RestaurantAction::SendToKitchen(order));
            },
            OrderStatus::Authorized => {
                if accept {
                    order.status = OrderStatus::Pending;
                    actions.push(RestaurantAction::SendToKitchen(order.clone()));
                    actions.push(RestaurantAction::UpdateOrderStatus(order));
                } else {
                    order.status = OrderStatus::Cancelled;
                    actions.push(RestaurantAction::CancelOrder(order));
                }
            },
            _ => {},
        }
        actions
    }

    /// Whether recovered information belongs to this restaurant.
    pub fn owns_recovered_info(&self, user_info: &UserDTO) -> (result: bool)
        ensures
            result == (user_info matches UserDTO::Restaurant(dto) && dto.restaurant_id@ == self.info.id@),
    {
        match user_info {
            UserDTO::Restaurant(dto) => dto.restaurant_id == self.info.id,
            _ => false,
        }
    }

    /// Resumes from the state the coordinator kept: the restaurant takes the
    /// recorded location and handles each of its pending and authorized
    /// orders again, once per order id. Information about another user is
    /// ignored.
    pub fn recover(&mut self, user_info: UserDTO) -> (actions: Vec<RestaurantAction>)
        ensures
            (*final(self), actions@) == after_recover(*old(self), user_info),
    {
        let mut actions: Vec<RestaurantAction> = Vec::new();
        match user_info {
            UserDTO::Restaurant(dto) => {
                if dto.restaurant_id == self.info.id {
                    self.info.position = dto.restaurant_position;
                    let orders = merge_recovered_orders(dto.pending_orders, dto.authorized_orders);
                    let mut i: usize = 0;
                    while i < orders.len()
                        invariant
                            i <= orders@.len(),
                            actions@.len() == i,
                            forall|j: int| 0 <= j < i ==> #[trigger] actions@[j] == RestaurantAction::NewOrder(orders@[j]),
                        decreases orders@.len() - i,
                    {
                        actions.push(RestaurantAction::NewOrder(orders[i].clone()));
                        i = i + 1;
                    }
                    proof {
                        assert(actions@ =~= orders@.map_values(|o: OrderDTO| RestaurantAction::NewOrder(o)));
                    }
                }
            },
            _ => {},
        }
        actions
    }
}

/// Replaying recovered orders handles each order id exactly once: no two
/// replayed orders share an id, and every recovered id is replayed.
pub proof fn lemma_first_of_each_id_unique(s: Seq<OrderDTO>)
    ensures
        one_order_per_id(first_of_each_id(s)),
        forall|i: int| #![trigger s[i]] 0 <= i < s.len() ==> exists|j: int|
            0 <= j < first_of_each_id(s).len() && #[trigger] first_of_each_id(s)[j].order_id == s[i].order_id,
        forall|j: int| 0 <= j < first_of_each_id(s).len() ==> s.contains(#[trigger] first_of_each_id(s)[j]),
    decreases s.len(),
{
    if s.len() > 0 {
        let p = s.drop_last();
        lemma_first_of_each_id_unique(p);
        let f = first_of_each_id(s);
        let fp = first_of_each_id(p);
        assert forall|j: int| 0 <= j < fp.len() implies s.contains(#[trigger] fp[j]) by {
            let k = choose|k: int| 0 <= k < p.len() && p[k] == fp[j];
            assert(s[k] == fp[j]);
        }
        if id_seen_before(s, s.len() - 1) {
            assert forall|i: int| #![trigger s[i]] 0 <= i < s.len() implies exists|j: int|
                0 <= j < f.len() && #[trigger] f[j].order_id == s[i].order_id by {
                if i == s.len() - 1 {
                    let k = choose|k: int| 0 <= k < s.len() - 1 && #[trigger] s[k].order_id == s[s.len() - 1].order_id;
                    assert(p[k] == s[k]);
                } else {
                    assert(p[i] == s[i]);
                }
            }
        } else {
            assert forall|a: int, b: int| 0 <= a < b < f.len() implies #[trigger] f[a].order_id != #[trigger] f[b].order_id by {
                if b == f.len() - 1 && f[a].order_id == f[b].order_id {
                    assert(p.contains(fp[a]));
                    let k = choose|k: int| 0 <= k < p.len() && p[k] == fp[a];
                    assert(s[k].order_id == s[s.len() - 1].order_id);
                }
            }
            assert forall|i: int| #![trigger s[i]] 0 <= i < s.len() implies exists|j: int|
                0 <= j < f.len() && #[trigger] f[j].order_id == s[i].order_id by {
                if i == s.len() - 1 {
                    assert(f[f.len() - 1] == s[i]);
                } else {
                    assert(p[i] == s[i]);
                    let j = choose|j: int| 0 <= j < fp.len() && #[trigger] fp[j].order_id == p[i].order_id;
                    assert(f[j] == fp[j]);
                }
            }
            assert forall|j: int| 0 <= j < f.len() implies s.contains(#[trigger] f[j]) by {
                if j == f.len() - 1 {
                    assert(s[s.len() - 1] == f[j]);
                } else {
                    assert(f[j] == fp[j]);
                }
            }
        }
    }
}

/// The first order of each id in `s` is kept by `first_of_each_id`.
pub proof fn lemma_first_of_id_kept(s: Seq<OrderDTO>, i: int)
    requires
        0 <= i < s.len(),
        !id_seen_before(s, i),
    ensures
        first_of_each_id(s).contains(s[i]),
    decreases s.len(),
{
    let f = first_of_each_id(s);
    if i == s.len() - 1 {
        assert(f[f.len() - 1] == s[i]);
    } else {
        let p = s.drop_last();
        assert(p[i] == s[i]);
        assert(!id_seen_before(p, i)) by {
            if id_seen_before(p, i) {
                let j = choose|j: int| 0 <= j < i && #[trigger] p[j].order_id == p[i].order_id;
                assert(s[j].order_id == s[i].order_id);
            }
        }
        lemma_first_of_id_kept(p, i);
        let fp = first_of_each_id(p);
        let k = choose|k: int| 0 <= k < fp.len() && fp[k] == s[i];
        assert(f[k] == s[i]);
    }
}

/// The new orders replayed for the recorded orders `s`.
spec fn replayed(s: Seq<OrderDTO>) -> Seq<RestaurantAction> {
    first_of_each_id(s).map_values(|o: OrderDTO| RestaurantAction::NewOrder(o))
}

/// Every replayed order is one of the recorded orders, unchanged.
proof fn lemma_replay_contained(s: Seq<OrderDTO>)
    ensures
        forall|j: int| 0 <= j < replayed(s).len() ==> (#[trigger] replayed(s)[j] matches RestaurantAction::NewOrder(o)
            && s.contains(o)),
{
    let f = first_of_each_id(s);
    lemma_first_of_each_id_unique(s);
    assert forall|j: int| 0 <= j < replayed(s).len() implies (#[trigger] replayed(s)[j] matches RestaurantAction::NewOrder(o)
        && s.contains(o)) by {
        assert(replayed(s)[j] == RestaurantAction::NewOrder(f[j]));
        assert(s.contains(f[j]));
    }
}

/// No two replayed orders share an id.
proof fn lemma_replay_distinct(s: Seq<OrderDTO>)
    ensures
        forall|a: int, b: int| 0 <= a < b < replayed(s).len() ==> (#[trigger] replayed(s)[a] matches RestaurantAction::NewOrder(x)
            && #[trigger] replayed(s)[b] matches RestaurantAction::NewOrder(y) && x.order_id != y.order_id),
{
    let f = first_of_each_id(s);
    lemma_first_of_each_id_unique(s);
    assert forall|a: int, b: int| 0 <= a < b < replayed(s).len() implies (#[trigger] replayed(s)[a] matches RestaurantAction::NewOrder(x)
        && #[trigger] replayed(s)[b] matches RestaurantAction::NewOrder(y) && x.order_id != y.order_id) by {
        assert(replayed(s)[a] == RestaurantAction::NewOrder(f[a]));
        assert(replayed(s)[b] == RestaurantAction::NewOrder(f[b]));
        assert(f[a].order_id != f[b].order_id);
    }
}

/// Every recorded order id is replayed.
proof fn lemma_replay_covers(s: Seq<OrderDTO>)
    ensures
        forall|i: int| #![trigger s[i]] 0 <= i < s.len() ==> exists|j: int| 0 <= j < replayed(s).len()
            && (#[trigger] replayed(s)[j] matches RestaurantAction::NewOrder(o) && o.order_id == s[i].order_id),
{
    let f = first_of_each_id(s);
    lemma_first_of_each_id_unique(s);
    assert forall|i: int| #![trigger s[i]] 0 <= i < s.len() implies exists|j: int| 0 <= j < replayed(s).len()
        && (#[trigger] replayed(s)[j] matches RestaurantAction::NewOrder(o) && o.order_id == s[i].order_id) by {
        let j = choose|j: int| 0 <= j < f.len() && #[trigger] f[j].order_id == s[i].order_id;
        assert(replayed(s)[j] == RestaurantAction::NewOrder(f[j]));
    }
}

/// The first pending order of each id is replayed as it was recorded.
proof fn lemma_replay_pending(pending: Seq<OrderDTO>, authorized: Seq<OrderDTO>)
    ensures
        forall|i: int| 0 <= i < pending.len() && !id_seen_before(pending, i) ==> exists|j: int|
            0 <= j < replayed(pending + authorized).len()
                && #[trigger] replayed(pending + authorized)[j] == RestaurantAction::NewOrder(pending[i]),
{
    let s = pending + authorized;
    let f = first_of_each_id(s);
    assert forall|i: int| 0 <= i < pending.len() && !id_seen_before(pending, i) implies exists|j: int|
        0 <= j < replayed(s).len() && #[trigger] replayed(s)[j] == RestaurantAction::NewOrder(pending[i]) by {
        assert(s[i] == pending[i]);
        assert(!id_seen_before(s, i)) by {
            if id_seen_before(s, i) {
                let k = choose|k: int| 0 <= k < i && #[trigger] s[k].order_id == s[i].order_id;
                assert(s[k] == pending[k]);
                assert(pending[k].order_id == pending[i].order_id);
            }
        }
        lemma_first_of_id_kept(s, i);
        let j = choose|j: int| 0 <= j < f.len() && f[j] == s[i];
        assert(replayed(s)[j] == RestaurantAction::NewOrder(f[j]));
    }
}

/// A restaurant resuming from its own recorded description takes the
/// recorded location and replays its recorded orders as new orders, each
/// exactly as it was recorded (status included): every replayed order is
/// one of the recorded orders, every recorded order id is replayed once,
/// and an order recorded as pending is replayed as that pending order.
pub proof fn lemma_recovery_replays_recorded_orders(r: Restaurant, dto: RestaurantDTO)
    requires
        dto.restaurant_id@ == r.info.id@,
    ensures
        ({
            let (r2, acts) = after_recover(r, UserDTO::Restaurant(dto));
            let s = dto.pending_orders@ + dto.authorized_orders@;
            &&& r2.info.position == dto.restaurant_position
            &&& r2.info.id == r.info.id
            &&& forall|j: int| 0 <= j < acts.len() ==> (#[trigger] acts[j] matches RestaurantAction::NewOrder(o)
                && s.contains(o))
            &&& forall|a: int, b: int| 0 <= a < b < acts.len() ==> (#[trigger] acts[a] matches RestaurantAction::NewOrder(x)
                && #[trigger] acts[b] matches RestaurantAction::NewOrder(y) && x.order_id != y.order_id)
            &&& forall|i: int| #![trigger s[i]] 0 <= i < s.len() ==> exists|j: int| 0 <= j < acts.len()
                && (#[trigger] acts[j] matches RestaurantAction::NewOrder(o) && o.order_id == s[i].order_id)
            &&& forall|i: int| 0 <= i < dto.pending_orders@.len() && !id_seen_before(dto.pending_orders@, i)
                ==> exists|j: int| 0 <= j < acts.len() && #[trigger] acts[j] == RestaurantAction::NewOrder(
                dto.pending_orders@[i],
            )
        }),
{
    let s = dto.pending_orders@ + dto.authorized_orders@;
    lemma_replay_contained(s);
    lemma_replay_distinct(s);
    lemma_replay_covers(s);
    lemma_replay_pending(dto.pending_orders@, dto.authorized_orders@);
    assert(after_recover(r, UserDTO::Restaurant(dto)).1 == replayed(s));
}

} // verus!

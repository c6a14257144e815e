//! The kitchen of a restaurant: a queue of orders waiting to be cooked and
//! a queue of idle chefs, matched first come, first served.
use crate::types::{OrderDTO, OrderStatus};
use std::collections::VecDeque;
use vstd::prelude::*;

verus! {

broadcast use vstd::std_specs::vecdeque::group_vec_dequeue_axioms;

/// `order` with its status replaced by `status`.
pub open spec fn with_status(order: OrderDTO, status: OrderStatus) -> OrderDTO {
    OrderDTO { status, ..order }
}

/// An order handed to a chef. Chefs are named by the index under which the
/// restaurant keeps them.
#[derive(Debug)]
pub struct ChefAssignment {
    /// The chef that cooks the order.
    pub chef: usize,
    /// The order, now `Preparing`.
    pub order: OrderDTO,
}

/// The kitchen's two queues.
#[derive(Debug)]
pub struct Kitchen {
    /// Orders waiting to be prepared, oldest first.
    pub pending_orders: VecDeque<OrderDTO>,
    /// Idle chefs, longest idle first.
    pub chefs_available: VecDeque<usize>,
}

/// What one round of assignment does to the queues `chefs` and `orders`:
/// the first `k = min(|chefs|, |orders|)` chefs take the first `k` orders,
/// and a chef left without an order goes to the back of the queue.
pub open spec fn chefs_after(chefs: Seq<usize>, orders: Seq<OrderDTO>) -> Seq<usize> {
    if chefs.len() > orders.len() {
        chefs.subrange(orders.len() + 1int, chefs.len() as int).push(chefs[orders.len() as int])
    } else {
        Seq::empty()
    }
}

/// The orders still waiting after one round of assignment.
pub open spec fn orders_after(chefs: Seq<usize>, orders: Seq<OrderDTO>) -> Seq<OrderDTO> {
    if chefs.len() >= orders.len() {
        Seq::empty()
    } else {
        orders.subrange(chefs.len() as int, orders.len() as int)
    }
}

/// The number of orders handed out by one round of assignment.
pub open spec fn assigned_count(chefs: Seq<usize>, orders: Seq<OrderDTO>) -> nat {
    if chefs.len() <= orders.len() {
        chefs.len()
    } else {
        orders.len()
    }
}

impl Kitchen {
    /// A kitchen with no orders and no chefs.
    pub fn new() -> (kitchen: Kitchen)
        ensures
            kitchen.pending_orders@ == Seq::<OrderDTO>::empty(),
            kitchen.chefs_available@ == Seq::<usize>::empty(),
    {
        Kitchen { pending_orders: VecDeque::new(), chefs_available: VecDeque::new() }
    }

    /// Hands pending orders to idle chefs, oldest order to longest-idle
    /// chef, until one of the queues runs out. Each handed-out order is
    /// marked `Preparing`.
    pub fn assign_orders_to_chefs(&mut self) -> (assignments: Vec<ChefAssignment>)
        ensures
            assignments@.len() == assigned_count(old(self).chefs_available@, old(self).pending_orders@),
            forall|i: int|
                0 <= i < assignments@.len() ==> (#[trigger] assignments@[i]).chef
                    == old(self).chefs_available@[i] && assignments@[i].order == with_status(
                    old(self).pending_orders@[i],
                    OrderStatus::Preparing,
                ),
            final(self).chefs_available@ == chefs_after(old(self).chefs_available@, old(self).pending_orders@),
            final(self).pending_orders@ == orders_after(old(self).chefs_available@, old(self).pending_orders@),
    {
        let ghost c = self.chefs_available@;
        let ghost p = self.pending_orders@;
        let mut assignments: Vec<ChefAssignment> = Vec::new();
        loop
            invariant_except_break
                assignments@.len() < c.len() || assignments@.len() <= p.len(),
                assignments@.len() <= c.len(),
                assignments@.len() <= p.len(),
                self.chefs_available@ == c.subrange(assignments@.len() as int, c.len() as int),
                self.pending_orders@ == p.subrange(assignments@.len() as int, p.len() as int),
                forall|i: int|
                    0 <= i < assignments@.len() ==> (#[trigger] assignments@[i]).chef == c[i]
                        && assignments@[i].order == with_status(p[i], OrderStatus::Preparing),
            ensures
                assignments@.len() == assigned_count(c, p),
                forall|i: int|
                    0 <= i < assignments@.len() ==> (#[trigger] assignments@[i]).chef == c[i]
                        && assignments@[i].order == with_status(p[i], OrderStatus::Preparing),
                self.chefs_available@ == chefs_after(c, p),
                self.pending_orders@ == orders_after(c, p),
            decreases self.chefs_available@.len(),
        {
            match self.chefs_available.pop_front() {
                Some(chef) => {
                    match self.pending_orders.pop_front() {
                        Some(order) => {
                            let mut order = order;
                            order.status = OrderStatus::Preparing;
                            assignments.push(ChefAssignment { chef, order });
                            proof {
                                assert(self.chefs_available@ =~= c.subrange(assignments@.len() as int, c.len() as int));
                                assert(self.pending_orders@ =~= p.subrange(assignments@.len() as int, p.len() as int));
                            }
                        },
                        None => {
                            self.chefs_available.push_back(chef);
                            proof {
                                assert(self.chefs_available@ =~= chefs_after(c, p));
                                assert(orders_after(c, p) =~= Seq::<OrderDTO>::empty());
                            }
                            break;
                        },
                    }
                },
                None => {
                    proof {
                        assert(self.chefs_available@ =~= chefs_after(c, p));
                        assert(self.pending_orders@ =~= orders_after(c, p));
                    }
                    break;
                },
            }
        }
        assignments
    }

    /// Queues a new order and hands out whatever can be handed out.
    pub fn receive_order(&mut self, order: OrderDTO) -> (assignments: Vec<ChefAssignment>)
        ensures
            assignments@.len() == assigned_count(old(self).chefs_available@, old(self).pending_orders@.push(order)),
            forall|i: int|
                0 <= i < assignments@.len() ==> (#[trigger] assignments@[i]).chef
                    == old(self).chefs_available@[i] && assignments@[i].order == with_status(
                    old(self).pending_orders@.push(order)[i],
                    OrderStatus::Preparing,
                ),
            final(self).chefs_available@ == chefs_after(old(self).chefs_available@, old(self).pending_orders@.push(order)),
            final(self).pending_orders@ == orders_after(old(self).chefs_available@, old(self).pending_orders@.push(order)),
    {
        self.pending_orders.push_back(order);
        self.assign_orders_to_chefs()
    }

    /// Puts a chef that has become idle back in the queue and hands out
    /// whatever can be handed out.
    pub fn chef_available(&mut self, chef: usize) -> (assignments: Vec<ChefAssignment>)
        ensures
            assignments@.len() == assigned_count(old(self).chefs_available@.push(chef), old(self).pending_orders@),
            forall|i: int|
                0 <= i < assignments@.len() ==> (#[trigger] assignments@[i]).chef
                    == old(self).chefs_available@.push(chef)[i] && assignments@[i].order == with_status(
                    old(self).pending_orders@[i],
                    OrderStatus::Preparing,
                ),
            final(self).chefs_available@ == chefs_after(old(self).chefs_available@.push(chef), old(self).pending_orders@),
            final(self).pending_orders@ == orders_after(old(self).chefs_available@.push(chef), old(self).pending_orders@),
    {
        self.chefs_available.push_back(chef);
        self.assign_orders_to_chefs()
    }

    /// Opens the kitchen with the chefs `0 .. chef_count` idle, in that
    /// order, and hands out whatever can be handed out.
    pub fn start(&mut self, chef_count: usize) -> (assignments: Vec<ChefAssignment>)
        ensures
            assignments@.len() == assigned_count(
                old(self).chefs_available@ + Seq::new(chef_count as nat, |i: int| i as usize),
                old(self).pending_orders@,
            ),
            forall|i: int|
                0 <= i < assignments@.len() ==> (#[trigger] assignments@[i]).chef
                    == (old(self).chefs_available@ + Seq::new(chef_count as nat, |i: int| i as usize))[i]
                    && assignments@[i].order == with_status(old(self).pending_orders@[i], OrderStatus::Preparing),
            final(self).chefs_available@ == chefs_after(
                old(self).chefs_available@ + Seq::new(chef_count as nat, |i: int| i as usize),
                old(self).pending_orders@,
            ),
            final(self).pending_orders@ == orders_after(
                old(self).chefs_available@ + Seq::new(chef_count as nat, |i: int| i as usize),
                old(self).pending_orders@,
            ),
    {
        let ghost c0 = self.chefs_available@;
        let mut i: usize = 0;
        while i < chef_count
            invariant
                i <= chef_count,
                self.pending_orders@ == old(self).pending_orders@,
                self.chefs_available@ == c0 + Seq::new(i as nat, |j: int| j as usize),
            decreases chef_count - i,
        {
            self.chefs_available.push_back(i);
            i = i + 1;
            proof {
                assert(self.chefs_available@ =~= c0 + Seq::new(i as nat, |j: int| j as usize));
            }
        }
        self.assign_orders_to_chefs()
    }
}

/// No order waits while a chef is idle: after a round of assignment one of
/// the two queues is empty, and no order or chef is lost or duplicated.
pub proof fn lemma_assignment_leaves_no_idle_pair(chefs: Seq<usize>, orders: Seq<OrderDTO>)
    ensures
        chefs_after(chefs, orders).len() == 0 || orders_after(chefs, orders).len() == 0,
        chefs_after(chefs, orders).len() + assigned_count(chefs, orders) == chefs.len(),
        orders_after(chefs, orders).len() + assigned_count(chefs, orders) == orders.len(),
        forall|i: int|
            0 <= i < orders_after(chefs, orders).len() ==> #[trigger] orders_after(chefs, orders)[i]
                == orders[assigned_count(chefs, orders) + i],
{
}

} // verus!

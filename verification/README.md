# pedidos_rust

A food-ordering system (clients, restaurants, delivery agents and a payment
gateway, talking over TCP) whose decision logic is written in Verus and
proved against mathematical models.

## Layout

- `src/` is the verified library. Each actor's behaviour is a set of step
  functions from a state and an event to the next state and the actions to
  perform, and every step states its result exactly through a spec function.
  - `bimap`: the one-to-one map from order ids to delivery ids, viewed as a
    `Map<u64, Seq<char>>`, with its two directions kept inverse by a type
    invariant.
  - `decimal`, `bimap_u64_string_serde`: decimal integers and the text form
    of the map, with a proof that reading back what was written gives the
    same map.
  - `client`, `restaurant`, `kitchen`, `chef`, `delivery_assigner`,
    `delivery`, `payment`: the decisions of each actor.
  - `tcp_sender`: the queue of outgoing messages, written one at a time in
    order.
  - `ui_input`: what the user types when choosing a restaurant and a dish.
  - `types`, `messages`, `peer_types`, `constants`: shared data.
  - `random`: one random draw from the `rand` crate, the only outside call.
- `tests/` runs the library on concrete values.
- `app/` is the program around the library: the actix actors, sockets, JSON,
  timers, terminal I/O and the floating-point distance and probability
  computations. It carries out the actions that the library decides.

Positions are carried in the library as the bit patterns of their `f32`
coordinates, and times as seconds and nanoseconds since the epoch; `app/`
converts them.

# thor

Small actors and a shared-office future, with the decisions they make
proved in Verus.

- `src/actor/` — an actor that stores the information it is sent and
  answers with what it held before, in three shapes (`alice`, `no_handle`,
  `actix`); `exchange` states the rule that `Actor::swap_info`,
  `Actor::handle_message` and the actix `MyActor::handle` follow, and proves
  what a run of messages is answered.
- `src/actix_actor_play.rs` — a counting actor; proofs that a run of pings
  ends at the start plus their sum, and that runs made of the same pings end
  at the same count whatever their order.
- `src/my_future.rs` — an office that is ready once two people are in it;
  proofs about entering, leaving and polling, including that any allowed mix
  of people entering and leaving ends at the start plus entries minus
  departures.
- `src/channel.rs` — the tokio channel calls the actors make, with their
  trusted contracts.
- `app/` — the program: the async loops, the actix and `Future` impls, the
  thread that wakes the office's waiter, and stream and task demos.

# nostr_relay

The client side of one Nostr relay: connecting and staying connected, permissions, the active
subscription, and queries for stored events.

- `src/` is the library. It decides and never waits: a function takes what happened and tells
  what is to be done next. Verus verifies every function against its contract, except the
  wrappers around outside calls in `wire`, whose contracts are trusted.
  - `relay`, `state`, `document`, `message`, `pool`: the data and their mathematical views
  - `queue`: orders to the task that writes, and what is due once an order was queued
  - `subscription`: what may be sent, and the active subscription
  - `lifecycle`: the decisions of the tasks that connect, write and read
  - `query`: queries for stored events
  - `laws`: what holds over any course of events
  - `wire`: what is taken from the `nostr` crate and from std without proof
- `app/` runs the library: tasks, channels, timers and the network.
- `tests/` runs the library with the real `nostr` crate.

# flight_brain

A tick-based message engine for embedded programs. Systems talk to each other
through a double-buffered `MessageQueue`: what a system pushes during a tick
is delivered, in push order, during the next tick only.

- `src/message_queue.rs`: the queue, its model as a pair of sequences (current
  tick, next tick), and the proved laws of delivery.
- `src/system.rs`: the `System` trait that programs implement.
- `src/run.rs`: one tick of the main loop.
- `app/lib.rs`: the main loop itself, which runs until the program's update
  function hands back no system.

# hio

Blocking queues, counting semaphores and the decisions of a small I/O
runtime, each proved against a mathematical model.

## Layout

- `src/` is the verified library. Each concurrent object appears as the
  state that its lock guards: an operation is a call on that state, and it
  says which waiters to wake. Both blocking queues (`ArrayBQ` over a ring
  buffer, `LinkedBQ` over a chain of nodes linked by index) refine one
  model, `bq::QueueModel`, and share the contracts of the `BQ` trait.
  Blocking calls are split: `push_must_wait`/`pop_must_wait` is the
  predicate a caller waits on, and `push`/`pop` is the step taken once it no
  longer holds; the timed forms are told whether the wait timed out.
- `app/` is the program around it: the mutexes, condition variables,
  futexes, threads, sockets, thread-local last error and C entry points. It
  drives the library's state machines and performs the wake-ups they ask
  for.
- `tests/` runs the library on concrete values.

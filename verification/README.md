# guest_tasks

Host-side bookkeeping for concurrent calls into guest components, verified with
Verus.

- `src/` is the library: starting and finishing calls (`func`, `call`, `abi`), the
  tasks of a store (`store`), handles to them and the future that waits for their
  completion (`task`), and the waiter slots behind that future (`wait`). `wait_laws`
  and `task_laws` prove what holds over any course of events. `waker` holds all that
  is trusted: three functions of `core::task::Waker`, each of which logs its calls.
- `app/` is an async front end: it shares a store between futures and gives the
  library's errors the traits of errors.
- `tests/` runs the library.

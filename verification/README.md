# copperlist

Preallocated copper lists, and the queue that hands them out.

A `CopperList` carries the messages that the tasks of one processing loop exchange, with a
state and an id. A `CuListsManager<P, N>` allocates `N` of them up front. `create` puts the
next one into the queue under a new id, `pop` takes the newest one out again, and the lists are
reused from then on.

- `src/` is the library, verified with Verus. `model.rs` says what a queue amounts to: the lists
  in it, the spare ones, and the next id. The contracts in `manager.rs` are stated over that
  model, and the laws at the end of `model.rs` are proved of it. `slots.rs` holds the lemmas on
  sequences and the two functions that lend out a slice item by item.
- `tests/` runs the library.
- `app/` holds the serializable twins of the types and the debug output of the manager.

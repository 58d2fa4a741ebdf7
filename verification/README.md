# pallet_laws

A registry of laws, verified with Verus. A law is a 32-byte text stored under a
32-byte id with a price. A signed account pays to create a law under an unused
id, to edit it (paying at least its current price), to upvote it (its price
rises by the payment), to downvote it (its price falls by the payment, never
below zero) or to remove it (paying its price). Every call on a stored law
names the text it expects, and is refused if the law has changed since.

- `src/types.rs`: ids, texts, origins, events, errors, and the `Balance`
  trait of amounts, implemented and verified for `u64` and `u128`.
- `src/rules.rs`: each call's checks, payment, writes and events, as spec
  functions and as the verified `prepare_*` functions that decide a call from
  the stored laws it reads; `charge` withdraws the payment of an accepted
  call, and asks no withdrawal for a refused one.
- `src/pallet.rs`: the table of stored laws and the six calls on it. The
  withdrawal that pays for a call is handed in as a closure. A call refused
  by its checks does not call it, and a refused call, including one whose
  withdrawal fails, leaves the table as it was.
- `src/laws.rs`: proved properties of calls and of sequences of calls.
- `app/`: the pallet inside a FRAME runtime, with chain storage, the runtime's
  currency and its events around the verified rules.
- `tests/`: the call scenarios and the properties on concrete values.

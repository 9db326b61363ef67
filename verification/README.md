# escrowq32026

A token escrow with a Dutch-auction price, verified with Verus.

A maker deposits token A into a vault and asks for token B. An optional
preferred taker has an exclusive window at the opening price; after it the
price moves linearly to a floor, and the offer expires at a fixed time. The
maker can cancel before the auction starts or reclaim the tokens after it
expires, and can change the opening price while the offer is open.

Layout:

- `src/` — the verified library. `state.rs` holds the offer, its phases and
  its price; `instructions/` the four instructions over plain values;
  `program.rs` the instruction handlers with their full outcomes; `laws.rs`
  the properties that relate them; `clock.rs` the one call into the runtime
  (the cluster clock); `transfer.rs` the token movements that a handler asks
  the runtime to perform.
- `tests/` — scenarios for each instruction and the laws on concrete values.
- `app/` — the Anchor program: it reads accounts into the library's values,
  calls the handlers, and performs the transfers and account closures.

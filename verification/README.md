# bounty_benchmarking

Verified helpers for the bounty pallet's benchmarks.

- `src/handle.rs`: the byte extraction and the four-byte membership handle
  made from a member index, with proofs that a handle spells its index back,
  that distinct indices get distinct handles, and that work entrants never
  collide with the other benchmark members.
- `src/blocks.rs`: the decision taken at each step of running the chain to a
  target block, with proofs that following it reaches the target and finalizes
  every block on the way exactly once, in order.
- `src/balance.rs`: the balance given to funded accounts and the council
  budget a funded bounty needs.
- `app/lib.rs`: the benchmarks themselves and the runtime glue, which drive a
  FRAME runtime through its pallets.

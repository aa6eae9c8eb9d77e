# gigadoram

Verified building blocks of GigaDORAM, a three-party distributed ORAM:
the clear-text parts of its PRF (LowMC), the cuckoo hash table that lays out
each level, the level schedule of the hierarchy, the local steps that each
party computes between messages (shuffling, opening a permutation, lookups
in the speed cache, folding level answers), and the configuration and
benchmark logic around them. Every function in `src/` carries a Verus
contract and is proved against it.

## Layout

- `src/lowmc/` — LowMC.
  - `instance.rs`: the instance (128-bit block and key, 13 rounds, 31
    S-boxes) and its mathematical definition, `lowmc_encrypt`.
  - `bits.rs`: the bit-level model (bits of words, GF(2) matrix products,
    the S-box layer) and the lemmas that relate word operations to it.
  - `plain.rs`: three implementations proved equal to `lowmc_encrypt`:
    bit by bit, on two 64-bit words, and bit-sliced over 64 blocks at once.
  - `bristol.rs`, `gigadoram.rs`: the Bristol circuit format (lines of
    whitespace-separated words), its parser, a clear-text evaluator, and the
    PRF circuit that takes an expanded key and a block.
  - `transpose.rs`: in-place bit-matrix transposition by block swaps
    (64 x 64 and 128 x 128) and the 128-lane bit-slicing of blocks.
  - `common.rs`: parameters and packing helpers of the PRF, and the
    Gray-code table of the method of four Russians.
  - `shared.rs`: the local steps of a round on replicated shares (the
    S-box layer's masked products and their combination, the linear part),
    with the laws that they open to the round on the opened values.
  - `tables.rs`: the instance constants (see `extras/lowmc_tables.py`).
- `src/cht.rs` — cuckoo hash table layout: hashing into two columns,
  orienting each connected component, stashing what does not fit; the
  build succeeds exactly when the inputs can be placed with the given stash.
- `src/hierarchy.rs` — the level schedule: base-`b` counters per level, the
  rebuild target, and what a rebuild gathers (proved to equal the size of
  the level it fills).
- `src/config.rs`, `src/doram_core.rs` — DORAM configurations and checks.
- `src/ohtable.rs` — parameters and query bookkeeping of the oblivious hash
  table of a level.
- `src/speed_cache.rs` — the slots of the speed cache and the local update
  of their address shares after a lookup.
- `src/shuffle.rs` — the parties' steps of the three-party shuffle of
  shared rows and of opening a shared permutation, with the laws that the
  results open to the input under the composed permutation.
- `src/sort.rs` — destinations of the stable partition by dummy flag, and
  placing rows at them.
- `src/access.rs` — the per-level local steps of a batched access.
- `src/benchmark.rs` — argument parsing, configuration check and the
  query generators of the benchmarks (seeded ChaCha20 through `rand`, and a
  fixed linear congruential workload).
- `src/party.rs`, `src/timings.rs` — party identities and phase timings.
- `tests/` — known answers, scenarios and edge cases.

Run Verus on `src/lib.rs` to check the proofs.

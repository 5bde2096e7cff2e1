# token_swap

A verified library for a constant-function token swap program: its curves,
fee arithmetic, instruction encoding, pool state layout, the account
checks the program makes before it moves tokens, and what each instruction
moves. Verus verifies every function in `src/` except the few trusted
wrappers around `spl-math` and `solana-program`, whose contracts it takes on
trust; each public function carries a contract. `tests/` runs the library on
concrete values; `app/` converts between the library's types and Solana's.

Layout of `src/`:

- `error.rs`: the program's error codes and the runtime errors it reports.
- `packing.rs`: little-endian encodings, the `Pack` and `IsInitialized`
  traits and their lemmas.
- `pubkey.rs`: 32-byte account addresses.
- `math.rs`: fixed-point numbers with ten decimal places.
- `curve.rs`: fee-carrying flat and constant product curves with `u64`
  parameters, and a swap curve over them.
- `curve/shared.rs`, `curve/flat.rs`, `curve/cp.rs`: curves that carry their
  own eight fee parameters, their calculator trait and their swap curve.
- `curve/calculator.rs`, `curve/constant_product.rs`,
  `curve/constant_price.rs`, `curve/offset.rs`, `curve/stable.rs`,
  `curve/pmm.rs`: curves without fees, behind the `CurveCalculator` trait;
  `curve/math.rs` holds the 256-bit and 12-decimal fixed-point arithmetic of
  `spl-math` that the PMM curve computes with.
- `curve/serum_market.rs`: a curve priced from order-book mid prices.
- `curve/base.rs`, `curve/fees.rs`: the swap curve that a pool's state holds,
  and the pool's fees.
- `constraints.rs`: the curves a program owner allows.
- `instruction.rs`: instruction encoding and decoding, and the builders of
  each instruction.
- `state.rs`: the pool registry and the pool's state.
- `processor.rs`: the checks on the accounts an instruction names, and the
  plan of each instruction: the amounts it moves, the fees it takes and the
  slippage limits it enforces, from plain values; the token transfers that
  carry a plan out are the caller's part.

Where a computation can produce a number too large for 128 bits (the PMM
curve's conversions, the normalized value of a pool), the plain function
requires that it does not, and a `try_` variant answers `None` there.

The laws of the library are public proof functions whose names begin with
`lemma_`; each states in its doc comment what it proves.

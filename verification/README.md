# ternary_fleet_integration

Fleet nodes cast ternary votes (+1 accept, 0 neutral, -1 reject). This crate tallies
those votes and derives from them the fleet's health status, per-node dashboard
summaries, request priorities and token budgets, and it keeps the relay's registry of
nodes, which a pulse updates by id.

- `src/` is the verified library (Verus). Budgets, shares and sentiments are exact
  fractions (`Ratio`, `SignedRatio`); every public function states its result exactly,
  and the laws of the library (tallies partition and add up, confidence and sentiment
  bounds, rate limits within [1/10, 1], monotone priorities, read-after-write on the
  registry) are proof functions beside the code.
- `tests/` runs the library on concrete values.
- `app/` is the HTTP relay (axum, tokio) and the JSON, clock and floating-point layer
  around the library.

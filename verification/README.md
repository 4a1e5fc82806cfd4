# otss

Domain logic of a small trading system, written in Verus and proved against
its contracts.

- `src/decimal.rs` — fixed-point decimals. Arithmetic, parsing and display
  call `rust_decimal`; the contracts state exact results where no rounding
  occurs and name the rounded ones.
- `src/summitx/` — the pre-trade risk engine: order state machines, positions
  with average price and realized PnL, risk limits, and the risk manager that
  validates orders against every limit and reports each violation.
- `src/otss_core/` — prices, quantities, money, orders, the portfolio, and the
  risk checks (order size, position limits, exposure, daily loss).
- `src/otss_data/`, `src/otss_integration/` — market-data records and feed
  clients, broker records and adapters (connection state, identifiers).
- `src/otss_devops/` — build targets, CI workflow generation, deployment,
  infrastructure health.
- `src/otss_pm/` — service lifecycle, orchestration, health monitoring,
  alerts, and the configuration store.
- `src/text.rs` — text of integers, booleans and quoted strings.

Laws of the library are public proof functions next to the code they speak
of (state machines, risk validation, positions, health aggregation).

`app/` is the orchestrator program, with JSON configuration loading and the
reports that hold floating-point durations. `tests/` runs the library.

# polybot

A trading terminal for five-minute bitcoin up/down markets, with its logic verified by Verus.

## Layout

- `src/` is the library. Verus proves the contracts of its functions, but for the small functions
  that call `rust_decimal`, `dashmap` or the standard library: theirs are taken on trust.
  - `state`, `events`, `reducer`: the shared state and the one function that changes it.
  - `worker`: what commands, polls, replies of the exchange and the window clock lead to, and the
    automatic sale of filled orders.
  - `market_data`: the price feed of a window.
  - `prediction`: the noise filter on bitcoin's ticks, the window's measurements, the conviction
    tracker, the trend detector, the reversion engine, the strategies and the service around them.
  - `ui`: windows, cards, consoles, messages and intervals, without the drawing.
  - `decimal`, `double`, `text`, `tables`: numbers, texts and concurrent tables, and most of the
    functions whose contracts are taken on trust. Their doc comments say what is relied on.
- `app/` is the program: networking, files, drawing, and the floating-point arithmetic whose results
  the library takes as readings.
- `tests/` run the library on concrete values.

## Numbers

A floating-point number is held by its bits (`Double`), so the library can store and compare it but
not compute with it. A reading is such a number that the caller has computed from what the library
hands out. Its doc comment says what it stands for, and the contracts say what is decided by it.

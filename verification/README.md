# robo_trading

An algorithmic trading bot for the Binance exchange, split in two:

- `src/` — the verified library (Verus). It holds the parts of the bot
  that do not compute on floating-point prices: the order and market
  vocabulary (`types`), decimal text (`text`), request building and
  HMAC-SHA256 signing and reply checks (`api`), retry, fill-tracking,
  client order ids and balance lookup decisions (`execution`), the book
  of open positions (`risk`), trading-signal rules (`strategy`),
  backtest exit reasons, outcome counts and streaks (`backtest`),
  configuration parsing (`config`), command-line and menu decisions (`cli`) and
  the error type (`error`).
- `app/` — the program (and, when installed under the name `interactive`,
  the interactive menu): HTTP and async plumbing, terminal output, and the
  floating-point parts (indicators, strategy analysis, risk amounts,
  backtest metrics, Monte Carlo simulation), built on the library.

`tests/` exercises the library's functions on concrete values.

Two collections are held as vectors rather than hash maps. The book of
open positions (`risk::PositionBook`) is a vector of symbol/position
pairs whose invariant is that no symbol occurs twice; its view is a map
from symbol to position, and it keeps the order in which symbols were
first added. Request parameters are an ordered vector of name/value
pairs, where setting a name replaces its first occurrence or appends it.
A map keyed by `String` gives Verus nothing to prove its lookups and
insertions against, and the vector also fixes the order of a listing
and of a query string, which a hash map leaves to its hasher.

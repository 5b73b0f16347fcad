# kis_supply_bot

A dry-run trading bot for the Korean stock market, driven by institutional and foreign
net buying. After the close it collects candles, investor flows and fundamentals, screens
and scores the stocks and stores the day's candidates; the next day it watches them and
records dry-run buy signals. Reports go to a Discord webhook. No real order is ever sent.

The library under `src/` is verified with Verus:

- `decimal`, `clock`, `text`: decimals as `rust_decimal` holds them, dates and times of
  day as chrono holds them, and the text rules the reports need.
- `domain`: the records (stocks, flows, candles, candidates, signals, orders).
- `strategy`: the screen (`filters`), the scores (`scoring`), candidate building and
  ordering (`candidate_builder`), the risk gate (`risk`), the intraday entry rules and
  what a signal records (`monitor`), the collection bookkeeping (`collect`) and the value
  ranges within which no computation overflows (`bounds`).
- `config`: the settings, their safe defaults and the environment overrides.
- `kis`: which broker client runs, the mock client's fixed data and the HTTP client's
  request texts.
- `order`: the dry-run executor.
- `discord`, `commands`: the text of every message the bot sends.
- `storage`: how stored rows read back, the order rows come in, and the schema split.

`app/` is the program around it: the command line, the settings file, the SQLite
repository, the HTTP clients and the async loops.

# datamancer

A unified subscription and replay layer for financial market data, verified
with Verus.

Providers deliver trades, quotes and bars; sessions stamp them, record them and
hand them on. The library states what that means and proves it:

- **Places.** Every event of a session gets the next place, once, at the
  source. All consumers of a symbol see the same places.
- **Nothing is lost silently.** What a consumer's channel or buffer cannot hold
  is reported as a gap that covers it, before anything later is delivered.
- **Honest coverage.** A cached range is claimed only as far as its data is
  confirmed; the rest is fetched again or reported missing.
- **Recording.** Live data reaches the tap log before it is delivered, and
  replay reproduces the order in which it arrived. Behind a backfill it is
  recorded under the place that it is delivered with; what arrives while a
  backfill still runs is recorded before it has one.

## Layout

- `src/` is the verified library.
  - `event`, `error`, `request`: the data model.
  - `session/`: scopes and options, tiling of ranges, the controller that
    stamps and delivers, and the machines that serve segments, fetches and live
    tails.
  - `client/`: fan-out to referrers, resume buffers, the multiplex of a client.
  - `providers/`: translation of wire messages, subscription lists, the
    streaming task of stocks and the shared hub of crypto as step machines.
  - `storage/`: coverage, rows and statements of the historical cache, the tap
    log's shards and ordinals, and what a store leaves behind for a replay to
    read, in a SQL file and in a document store.
  - `commands`, `subscription`, `subscriptions/`, `inner`, `alpaca/`: the
    message-bus service.
- `app/` is the program around it: sockets, databases, channels and timers.
- `tests/` runs the library.

Step machines take an event and give back actions. `app/` performs the actions
and feeds back what happened; everything that is decided is decided in `src/`.

Prices and quantities are integers throughout `src/`: a price is counted in
billionths, and a quantity in billionths of a unit.

# nbx-api

A client library for the NBX exchange API and the decision logic of a
terminal that sells Ethereum gradually on nbx.com, verified with Verus.

- `src/` is the verified library: request signing and the session token,
  endpoint paths, the order request builder, reading of the pagination
  header and of status codes, the steps of the event stream, the live order
  book, the price history, and the selling terminal's decisions (when the
  next order is due, order delays, the sweep over open orders, key bindings
  and their effects, paging of the fill history, fill times, display
  groupings).
- `app/` is the program around it: the asynchronous HTTP and WebSocket
  client, JSON (de)serialization of the library's types, the terminal user
  interface, and the computations on floating-point prices.
- `tests/` exercises the library on concrete values.

Terminal keys: Shift + Page Up/Down raises or lowers the minimum sell price
by 100 (by 10 without Shift), Shift + B makes the next order due now, `i`
toggles ignoring the Coinbase price, and Esc, `q` or Ctrl+C quit.

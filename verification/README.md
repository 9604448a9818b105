# chat_bridge

The decisions behind a chat connection that is offered to apps, verified with Verus.

A connection runs over a socket of a network stack, or over a *requester*: a callback of the app
that makes one HTTP request at a time. The library decides what is handed to either, what becomes of
what comes back, and what an app's listener hears. It opens nothing and waits for nothing.

- `src/` is the library.
  - `text`, `account`: parsing of text, account identifiers and sign-in usernames.
  - `headers`, `body`, `request`: HTTP requests and responses, over the `http` and `bytes` crates.
  - `requester`, `log_line`: requests through a requester, their cancellation, and what the log has
    of them.
  - `connect`: what a connection is opened with.
  - `connection`: from an open connection to a running one, and what it sends on.
  - `listener`: what the server sends unasked, on its way to a listener.
  - `stream`: streams that are read in chunks and can be cancelled.
  - `backup`, `remote_derives`, `services`, `time`: records that apps and services exchange.
- `tests/` runs the library.
- `app/` is what awaits, blocks, locks and logs around it. The network stack comes in through a
  trait.

Functions with `law` in their names state what holds of several functions together.

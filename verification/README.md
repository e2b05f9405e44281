# binance_common

Shared building blocks of a Binance API client, written and verified in Verus.

- `src/errors.rs`: why a WebSocket connection failed and whether to open it again; errors of REST
  calls, WebSocket clients and stream subscriptions, with their messages.
- `src/models.rs`: plain values that clients exchange with their callers.
- `src/observers.rs`: which callback a transport event reaches, in which order, and what is logged
  when one of them panics.
- `src/config.rs`, `src/config/`: configurations and their builders.
- `src/diagnostics.rs`: what configurations show of themselves, without their credentials.
- `src/text.rs`: the text that messages are made of.
- `src/external.rs`: the items of other crates that the library relies on, and what is claimed of
  them.
- `app/`: callbacks and panics, HTTP clients, JSON, `Debug`, `Display` and `Error`.
- `tests/`: the library at work.

Functions named `law_..` state what holds across several functions.

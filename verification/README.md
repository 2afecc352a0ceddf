# bototui

The library behind a terminal front end for AWS Batch, verified with Verus.

- `src/action.rs` — the actions that the screens exchange.
- `src/components/` — the screens' state and decisions: the job list (`batch`),
  the fetch of the job list from AWS Batch (`fetch`), the home screen (`home`), the
  log screen (`logger`), the routing between screens (`navigation`), and the keys
  they react to (`keys`).
- `src/timefmt.rs` — creation times as shown, through chrono.
- `src/text.rs` — text helpers (decimal writing of numbers).
- `src/mocks.rs` — an in-memory stand-in for AWS Batch.
- `app/` — the program: terminal, event loop, widgets, and the AWS calls.

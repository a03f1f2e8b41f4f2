# aws-tui

A terminal user interface for browsing AWS: S3 buckets and objects, DynamoDB
tables and queries, CloudWatch log groups and log events, one AWS profile per
tab.

## Layout

- `src/` is the verified library. Every widget, component, tab and the
  application itself is a state machine: each method states, over a view of
  the state, what a key press or an event does to the state and which
  `Command`s it hands back to the caller (queue an event, create an AWS client,
  list buckets, run a query, fetch logs, ...). The views and their transition
  functions are spec functions next to the types; laws over several calls are
  public proof functions (`lemma_*`).
  - `event_managment/` — keys and events.
  - `widgets/` — service navigators (with filtering), input box, popup,
    paragraph.
  - `components/` — the S3, DynamoDB and CloudWatch components and the tab.
  - `services/` — what the AWS clients decide and format (key schemas, key
    conditions, log lines, listings), the per-tab client cache, and the
    profile list of the AWS configuration file.
  - `app.rs` — the tabs of the application and the global shortcuts.
- `app/` is the program: it draws the library's state with ratatui, reads the
  keyboard with crossterm, performs the commands with the AWS SDK and hands
  the results back to the library.
- `tests/` exercise the library on concrete values.
